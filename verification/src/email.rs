//! The shape of an e-mail address that the sign-in form accepts:
//! `local@domain.tld`, where the local part is letters, digits and `._%+-`,
//! the domain is letters, digits, `.` and `-`, and the last label is two or
//! more letters.

use vstd::prelude::*;
use vstd::string::StrSliceExecFns;

verus! {

pub open spec fn is_ascii_letter(c: char) -> bool {
    ('a' <= c && c <= 'z') || ('A' <= c && c <= 'Z')
}

pub open spec fn is_ascii_digit(c: char) -> bool {
    '0' <= c && c <= '9'
}

/// A character of the part before `@`.
pub open spec fn is_local_char(c: char) -> bool {
    is_ascii_letter(c) || is_ascii_digit(c) || c == '.' || c == '_' || c == '%' || c == '+'
        || c == '-'
}

/// A character of the domain before its last label.
pub open spec fn is_domain_char(c: char) -> bool {
    is_ascii_letter(c) || is_ascii_digit(c) || c == '.' || c == '-'
}

/// `s` splits at `at` (the `@`) and `dot` (the `.` before the last label)
/// into a non-empty local part, a non-empty domain and a label of two or
/// more letters.
pub open spec fn email_split(s: Seq<char>, at: int, dot: int) -> bool {
    &&& 0 < at
    &&& at + 1 < dot
    &&& dot + 2 < s.len()
    &&& s[at] == '@'
    &&& s[dot] == '.'
    &&& forall|k: int| 0 <= k < at ==> #[trigger] is_local_char(s[k])
    &&& forall|k: int| at < k < dot ==> #[trigger] is_domain_char(s[k])
    &&& forall|k: int| dot < k < s.len() ==> #[trigger] is_ascii_letter(s[k])
}

/// The whole of `s` has the shape of an e-mail address.
pub open spec fn is_email_address(s: Seq<char>) -> bool {
    exists|at: int, dot: int| email_split(s, at, dot)
}

/// An address has exactly one `@`, and its last label is letters only.
pub proof fn lemma_email_parts_unique(s: Seq<char>, at: int, dot: int)
    requires
        email_split(s, at, dot),
    ensures
        forall|k: int| 0 <= k < s.len() && s[k] == '@' ==> k == at,
        forall|a: int, d: int| email_split(s, a, d) ==> a == at && d == dot,
{
    assert forall|k: int| 0 <= k < s.len() && s[k] == '@' implies k == at by {
        if k < at {
            assert(is_local_char(s[k]));
        } else if at < k && k < dot {
            assert(is_domain_char(s[k]));
        } else if dot < k {
            assert(is_ascii_letter(s[k]));
        }
    }
    assert forall|a: int, d: int| email_split(s, a, d) implies a == at && d == dot by {
        if a < at {
            assert(is_local_char(s[a]));
        }
        if at < a {
            assert(is_local_char(s[at]));
        }
        if d < dot {
            assert(is_ascii_letter(s[dot]));
        }
        if dot < d {
            assert(is_ascii_letter(s[d]));
        }
    }
}

/// Index of the first `c` in `s`, or the length of `s` where there is none.
fn first_index_of(s: &str, n: usize, c: char) -> (res: usize)
    requires
        n == s@.len(),
    ensures
        res <= n,
        forall|k: int| 0 <= k < res ==> s@[k] != c,
        res < n ==> s@[res as int] == c,
{
    let mut i: usize = 0;
    while i < n
        invariant
            n == s@.len(),
            i <= n,
            forall|k: int| 0 <= k < i ==> s@[k] != c,
        decreases n - i,
    {
        if s.get_char(i) == c {
            return i;
        }
        i = i + 1;
    }
    n
}

/// Index of the last `c` in `s`, or `None` where there is none.
fn last_index_of(s: &str, n: usize, c: char) -> (res: Option<usize>)
    requires
        n == s@.len(),
    ensures
        res matches Some(j) ==> j < n && s@[j as int] == c && forall|k: int|
            j < k < n ==> s@[k] != c,
        res is None ==> forall|k: int| 0 <= k < n ==> s@[k] != c,
{
    let mut i: usize = n;
    while i > 0
        invariant
            n == s@.len(),
            i <= n,
            forall|k: int| i <= k < n ==> s@[k] != c,
        decreases i,
    {
        if s.get_char(i - 1) == c {
            return Some(i - 1);
        }
        i = i - 1;
    }
    None
}

fn is_local_char_exec(c: char) -> (res: bool)
    ensures
        res == is_local_char(c),
{
    ('a' <= c && c <= 'z') || ('A' <= c && c <= 'Z') || ('0' <= c && c <= '9') || c == '.' || c
        == '_' || c == '%' || c == '+' || c == '-'
}

fn is_domain_char_exec(c: char) -> (res: bool)
    ensures
        res == is_domain_char(c),
{
    ('a' <= c && c <= 'z') || ('A' <= c && c <= 'Z') || ('0' <= c && c <= '9') || c == '.' || c
        == '-'
}

fn is_ascii_letter_exec(c: char) -> (res: bool)
    ensures
        res == is_ascii_letter(c),
{
    ('a' <= c && c <= 'z') || ('A' <= c && c <= 'Z')
}

/// The character classes of the three parts of an address.
#[derive(Clone, Copy, PartialEq, Eq, Structural)]
pub enum CharClass {
    Local,
    Domain,
    Letter,
}

/// Whether `s[from..to]` holds only characters of `class`.
fn all_in_class(s: &str, from: usize, to: usize, class: CharClass) -> (res: bool)
    requires
        from <= to <= s@.len(),
    ensures
        res == (forall|k: int|
            from <= k < to ==> #[trigger] char_in_class(s@[k], class)),
{
    let mut i = from;
    while i < to
        invariant
            from <= i <= to <= s@.len(),
            forall|k: int| from <= k < i ==> #[trigger] char_in_class(s@[k], class),
        decreases to - i,
    {
        let c = s.get_char(i);
        let ok = match class {
            CharClass::Local => is_local_char_exec(c),
            CharClass::Domain => is_domain_char_exec(c),
            CharClass::Letter => is_ascii_letter_exec(c),
        };
        if !ok {
            assert(!char_in_class(s@[i as int], class));
            return false;
        }
        i = i + 1;
    }
    true
}

pub open spec fn char_in_class(c: char, class: CharClass) -> bool {
    match class {
        CharClass::Local => is_local_char(c),
        CharClass::Domain => is_domain_char(c),
        CharClass::Letter => is_ascii_letter(c),
    }
}

/// Whether the whole of `s` has the shape of an e-mail address.
pub fn check_email_address(s: &str) -> (res: bool)
    ensures
        res == is_email_address(s@),
{
    let n = s.unicode_len();
    let at = first_index_of(s, n, '@');
    let last_dot = last_index_of(s, n, '.');
    let res = match last_dot {
        None => false,
        Some(dot) => {
            if at == 0 || at >= n || dot <= at + 1 || n - dot <= 2 {
                false
            } else {
                all_in_class(s, 0, at, CharClass::Local) && all_in_class(
                    s,
                    at + 1,
                    dot,
                    CharClass::Domain,
                ) && all_in_class(s, dot + 1, n, CharClass::Letter)
            }
        },
    };
    proof {
        let v = s@;
        if res {
            let dot = last_dot->0 as int;
            assert forall|k: int| 0 <= k < at implies #[trigger] is_local_char(v[k]) by {
                assert(char_in_class(v[k], CharClass::Local));
            }
            assert forall|k: int| at < k < dot implies #[trigger] is_domain_char(v[k]) by {
                assert(char_in_class(v[k], CharClass::Domain));
            }
            assert forall|k: int| dot < k < v.len() implies #[trigger] is_ascii_letter(v[k]) by {
                assert(char_in_class(v[k], CharClass::Letter));
            }
            assert(email_split(v, at as int, dot));
        } else if is_email_address(v) {
            let (a, d) = choose|a: int, d: int| email_split(v, a, d);
            // The `@` is the first one: nothing before it is an `@`.
            if a < at {
                assert(v[a] == '@');
            }
            if at < a {
                assert(is_local_char(v[at as int]));
            }
            assert(a == at);
            // The `.` is the last one: nothing after it is a `.`.
            assert(last_dot is Some) by {
                if last_dot is None {
                    assert(v[d] == '.');
                }
            }
            let dot = last_dot->0 as int;
            if d < dot {
                assert(is_ascii_letter(v[dot]));
            }
            if dot < d {
                assert(v[d] == '.');
            }
            assert(d == dot);
            assert forall|k: int| 0 <= k < at implies #[trigger] char_in_class(v[k], CharClass::Local) by {
                assert(is_local_char(v[k]));
            }
            assert forall|k: int| at + 1 <= k < dot implies #[trigger] char_in_class(v[k], CharClass::Domain) by {
                assert(is_domain_char(v[k]));
            }
            assert forall|k: int| dot + 1 <= k < n implies #[trigger] char_in_class(v[k], CharClass::Letter) by {
                assert(is_ascii_letter(v[k]));
            }
        }
    }
    res
}

} // verus!
