use vstd::prelude::*;
use vstd::string::*;

verus! {

/// The text without its trailing NUL characters.
pub open spec fn strip_trailing_nuls(s: Seq<char>) -> Seq<char>
    decreases s.len(),
{
    if s.len() > 0 && s.last() == '\0' {
        strip_trailing_nuls(s.drop_last())
    } else {
        s
    }
}

/// The code of a character with ASCII upper case turned to lower case.
pub open spec fn ascii_lower(c: char) -> int {
    if 'A' <= c && c <= 'Z' {
        c as int + 32
    } else {
        c as int
    }
}

/// Equal texts when ASCII letters are compared without regard to case.
pub open spec fn eq_ignore_ascii_case(a: Seq<char>, b: Seq<char>) -> bool {
    a.len() == b.len() && forall|i: int| 0 <= i < a.len() ==> ascii_lower(a[i]) == ascii_lower(b[i])
}

fn lower(c: char) -> (r: u32)
    ensures
        r == ascii_lower(c),
{
    if 'A' <= c && c <= 'Z' {
        c as u32 + 32
    } else {
        c as u32
    }
}

proof fn lemma_strip_prefix(s: Seq<char>, n: int)
    requires
        0 < n <= s.len(),
        s[n - 1] == '\0',
    ensures
        strip_trailing_nuls(s.take(n)) == strip_trailing_nuls(s.take(n - 1)),
{
    assert(s.take(n).drop_last() =~= s.take(n - 1));
}

/// Whether the start-up registry entry names the running program: its value,
/// without trailing NULs, equals the program's path up to ASCII case.
pub fn startup_entry_matches(reg_value: &str, current_exe: &str) -> (r: bool)
    ensures
        r == eq_ignore_ascii_case(strip_trailing_nuls(reg_value@), current_exe@),
{
    let n = reg_value.unicode_len();
    let m = current_exe.unicode_len();
    let mut end: usize = n;
    assert(reg_value@.take(n as int) =~= reg_value@);
    while end > 0 && reg_value.get_char(end - 1) == '\0'
        invariant
            n == reg_value@.len(),
            end <= n,
            strip_trailing_nuls(reg_value@) == strip_trailing_nuls(reg_value@.take(end as int)),
        decreases end,
    {
        proof { lemma_strip_prefix(reg_value@, end as int); }
        end = end - 1;
    }
    let ghost trimmed = reg_value@.take(end as int);
    assert(strip_trailing_nuls(reg_value@) == trimmed) by {
        if trimmed.len() > 0 {
            assert(trimmed.last() == reg_value@[end - 1]);
        }
    }
    if end != m {
        return false;
    }
    let mut i: usize = 0;
    while i < end
        invariant
            n == reg_value@.len(),
            m == current_exe@.len(),
            end == m,
            end <= n,
            i <= end,
            trimmed == reg_value@.take(end as int),
            strip_trailing_nuls(reg_value@) == trimmed,
            forall|j: int| 0 <= j < i ==> ascii_lower(trimmed[j]) == ascii_lower(current_exe@[j]),
        decreases end - i,
    {
        if lower(reg_value.get_char(i)) != lower(current_exe.get_char(i)) {
            assert(trimmed[i as int] == reg_value@[i as int]);
            assert(ascii_lower(trimmed[i as int]) != ascii_lower(current_exe@[i as int]));
            return false;
        }
        i = i + 1;
    }
    true
}

} // verus!
