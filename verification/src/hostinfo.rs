//! Host information presented in the startup summary.
//!
//! The surrounding program reads the well-known OS-release file and queries the
//! host for its kernel version; what is *made* of those raw values is decided
//! here: the first `PRETTY_NAME` field is extracted from the file's text, and
//! missing values fall back to a sentinel.

use vstd::prelude::*;

verus! {

/// The field marker searched for in the OS-release text.
pub open spec fn key_text() -> Seq<char> {
    "PRETTY_NAME="@
}

/// The marker starts at position `i` of `s`.
pub open spec fn key_at(s: Seq<char>, i: int) -> bool {
    0 <= i && i + 12 <= s.len() && s.subrange(i, i + 12) == key_text()
}

/// The first position at or after `i` where the marker starts, or -1 if there
/// is none.
pub open spec fn find_key(s: Seq<char>, i: int) -> int
    decreases s.len() - i when 0 <= i <= s.len()
{
    if i + 12 > s.len() {
        -1
    } else if key_at(s, i) {
        i
    } else {
        find_key(s, i + 1)
    }
}

/// The first position at or after `i` holding a newline, or -1 if there is none.
pub open spec fn find_newline_spec(s: Seq<char>, i: int) -> int
    decreases s.len() - i when 0 <= i <= s.len()
{
    if i >= s.len() {
        -1
    } else if s[i] == '\n' {
        i
    } else {
        find_newline_spec(s, i + 1)
    }
}

/// The human-readable distribution name in an OS-release text: the value of the
/// first `PRETTY_NAME=` field, taken up to the end of its line, with one pair of
/// surrounding double quotes removed; "unknown" when the field is absent, its
/// line is not newline-terminated, or its value is empty.
pub open spec fn spec_pretty_name(s: Seq<char>) -> Seq<char> {
    let i = find_key(s, 0);
    if i < 0 {
        "unknown"@
    } else {
        let k = i + 12;
        let e = find_newline_spec(s, k);
        if e < 0 {
            "unknown"@
        } else {
            let k2 = if k < e && s[k] == '"' {
                k + 1
            } else {
                k
            };
            let e2 = if k2 < e && s[e - 1] == '"' {
                e - 1
            } else {
                e
            };
            if e2 <= k2 {
                "unknown"@
            } else {
                s.subrange(k2, e2)
            }
        }
    }
}

/// Does the marker start at position `i`? Compared character by character.
fn key_matches_at(content: &str, i: usize, n: usize) -> (b: bool)
    requires
        n as nat == content@.len(),
        i + 12 <= n,
    ensures
        b == key_at(content@, i as int),
{
    let key = "PRETTY_NAME=";
    proof {
        reveal_strlit("PRETTY_NAME=");
    }
    let mut j: usize = 0;
    while j < 12
        invariant
            n as nat == content@.len(),
            i + 12 <= n,
            j <= 12,
            key@ == key_text(),
            key@.len() == 12,
            forall|t: int| 0 <= t < j ==> content@[i + t] == key_text()[t],
        decreases 12 - j,
    {
        let c = content.get_char(i + j);
        let k = key.get_char(j);
        if c != k {
            proof {
                assert(content@.subrange(i as int, i as int + 12)[j as int] != key_text()[j as int]);
            }
            return false;
        }
        j = j + 1;
    }
    proof {
        assert(content@.subrange(i as int, i as int + 12) =~= key_text());
    }
    true
}

/// The position of the first newline at or after `from`, if any.
fn find_newline(content: &str, from: usize, n: usize) -> (r: Option<usize>)
    requires
        n as nat == content@.len(),
        from <= n,
    ensures
        r matches Some(e) ==> find_newline_spec(content@, from as int) == e as int && from <= e
            < n,
        r is None ==> find_newline_spec(content@, from as int) == -1,
{
    let mut i: usize = from;
    while i < n
        invariant
            n as nat == content@.len(),
            from <= i <= n,
            find_newline_spec(content@, from as int) == find_newline_spec(content@, i as int),
        decreases n - i,
    {
        if content.get_char(i) == '\n' {
            return Some(i);
        }
        i = i + 1;
    }
    None
}

/// Extract the distribution name from the OS-release file's text.
pub fn pretty_name(content: &str) -> (r: String)
    ensures
        r@ == spec_pretty_name(content@),
{
    let n = content.unicode_len();
    let mut i: usize = 0;
    let mut found = false;
    if n >= 12 {
        while !found && i <= n - 12
            invariant
                n as nat == content@.len(),
                12 <= n,
                i <= n - 12 + 1,
                found ==> i <= n - 12 && key_at(content@, i as int),
                find_key(content@, 0) == if found {
                    i as int
                } else {
                    find_key(content@, i as int)
                },
            decreases n - i + (if found { 0int } else { 1int }),
        {
            if key_matches_at(content, i, n) {
                found = true;
            } else {
                i = i + 1;
            }
        }
    }
    if !found {
        proof {
            assert(find_key(content@, 0) == -1);
        }
        return String::from_str("unknown");
    }
    let k = i + 12;
    let e_opt = find_newline(content, k, n);
    match e_opt {
        None => String::from_str("unknown"),
        Some(e) => {
            let k2 = if k < e && content.get_char(k) == '"' {
                k + 1
            } else {
                k
            };
            let e2 = if k2 < e && content.get_char(e - 1) == '"' {
                e - 1
            } else {
                e
            };
            if e2 <= k2 {
                String::from_str("unknown")
            } else {
                String::from_str(content.substring_char(k2, e2))
            }
        },
    }
}

/// The kernel version as displayed: the reported value, or "unknown" when the
/// host could not supply one.
pub fn kernel_display(k: Option<String>) -> (r: String)
    ensures
        k matches Some(s) ==> r@ == s@,
        k is None ==> r@ == "unknown"@,
{
    match k {
        Some(s) => s,
        None => String::from_str("unknown"),
    }
}

} // verus!
