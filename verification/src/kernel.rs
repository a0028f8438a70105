use vstd::prelude::*;

verus! {

/// A character that may stand inside an identifier of the kernel language.
pub open spec fn is_ident_char(c: char) -> bool {
    ||| 'a' as u32 <= c as u32 && c as u32 <= 'z' as u32
    ||| 'A' as u32 <= c as u32 && c as u32 <= 'Z' as u32
    ||| '0' as u32 <= c as u32 && c as u32 <= '9' as u32
    ||| c == '_'
}

/// The keyword that declares a kernel-type entry point.
pub open spec fn kernel_keyword() -> Seq<char> {
    seq!['k', 'e', 'r', 'n', 'e', 'l']
}

/// A kernel entry point is declared at position `i` when the keyword
/// `kernel` stands there as a word of its own.
pub open spec fn kernel_at(s: Seq<char>, i: int) -> bool {
    &&& 0 <= i
    &&& i + 6 <= s.len()
    &&& s.subrange(i, i + 6) == kernel_keyword()
    &&& (i == 0 || !is_ident_char(s[i - 1]))
    &&& (i + 6 == s.len() || !is_ident_char(s[i + 6]))
}

/// How many kernel entry points are declared before position `n`.
pub open spec fn kernel_count_upto(s: Seq<char>, n: int) -> nat
    decreases n,
{
    if n <= 0 {
        0
    } else {
        kernel_count_upto(s, n - 1) + if kernel_at(s, n - 1) {
            1nat
        } else {
            0nat
        }
    }
}

/// How many kernel entry points the source declares.
pub open spec fn kernel_count(s: Seq<char>) -> nat {
    kernel_count_upto(s, s.len() as int)
}

/// The brace nesting depth after the first `n` characters.
pub open spec fn brace_depth(s: Seq<char>, n: int) -> int
    decreases n,
{
    if n <= 0 {
        0
    } else {
        brace_depth(s, n - 1) + if s[n - 1] == '{' {
            1int
        } else if s[n - 1] == '}' {
            -1int
        } else {
            0int
        }
    }
}

/// A source has valid syntax when its braces balance and no prefix closes
/// more braces than it opened.
pub open spec fn well_formed_source(s: Seq<char>) -> bool {
    &&& brace_depth(s, s.len() as int) == 0
    &&& forall|n: int| 0 <= n <= s.len() ==> #[trigger] brace_depth(s, n) >= 0
}

/// A source is accepted for program creation when its syntax is valid and it
/// declares exactly one kernel entry point.
pub open spec fn source_accepted(s: Seq<char>) -> bool {
    well_formed_source(s) && kernel_count(s) == 1
}

fn is_ident_char_exec(c: char) -> (r: bool)
    ensures
        r == is_ident_char(c),
{
    (c as u32 >= 'a' as u32 && c as u32 <= 'z' as u32) || (c as u32 >= 'A' as u32 && c as u32
        <= 'Z' as u32) || (c as u32 >= '0' as u32 && c as u32 <= '9' as u32) || c == '_'
}

fn keyword_char(k: usize) -> (c: char)
    requires
        k < 6,
    ensures
        c == kernel_keyword()[k as int],
{
    match k {
        0 => 'k',
        1 => 'e',
        2 => 'r',
        3 => 'n',
        4 => 'e',
        _ => 'l',
    }
}

fn kernel_at_exec(s: &str, i: usize, n: usize) -> (r: bool)
    requires
        n == s@.len(),
        i < n,
    ensures
        r == kernel_at(s@, i as int),
{
    if n - i < 6 {
        return false;
    }
    let mut k: usize = 0;
    while k < 6
        invariant
            k <= 6,
            i + 6 <= n,
            n == s@.len(),
            forall|j: int| 0 <= j < k ==> s@[i + j] == kernel_keyword()[j],
        decreases 6 - k,
    {
        let c = s.get_char(i + k);
        if c != keyword_char(k) {
            proof {
                assert(s@.subrange(i as int, i + 6)[k as int] != kernel_keyword()[k as int]);
            }
            return false;
        }
        k += 1;
    }
    proof {
        assert(s@.subrange(i as int, i + 6) =~= kernel_keyword());
    }
    if i > 0 && is_ident_char_exec(s.get_char(i - 1)) {
        return false;
    }
    if i + 6 < n && is_ident_char_exec(s.get_char(i + 6)) {
        return false;
    }
    true
}

/// Counts the kernel entry points the source declares, scanning each
/// position for the keyword standing as a word of its own.
pub fn count_kernel_entry_points(s: &str) -> (r: usize)
    ensures
        r as nat == kernel_count(s@),
{
    let n = s.unicode_len();
    let mut count: usize = 0;
    let mut i: usize = 0;
    while i < n
        invariant
            i <= n,
            count <= i,
            n == s@.len(),
            count as nat == kernel_count_upto(s@, i as int),
        decreases n - i,
    {
        if kernel_at_exec(s, i, n) {
            count += 1;
        }
        i += 1;
    }
    count
}

/// Checks that the source's braces balance and no prefix closes more braces
/// than it opened.
pub fn source_syntax_valid(s: &str) -> (r: bool)
    ensures
        r == well_formed_source(s@),
{
    let n = s.unicode_len();
    let mut depth: usize = 0;
    let mut i: usize = 0;
    while i < n
        invariant
            i <= n,
            depth <= i,
            n == s@.len(),
            depth as int == brace_depth(s@, i as int),
            forall|m: int| 0 <= m <= i ==> #[trigger] brace_depth(s@, m) >= 0,
        decreases n - i,
    {
        let c = s.get_char(i);
        if c == '{' {
            depth += 1;
        } else if c == '}' {
            if depth == 0 {
                proof {
                    assert(brace_depth(s@, i + 1) == -1);
                }
                return false;
            }
            depth -= 1;
        }
        i += 1;
    }
    depth == 0
}

} // verus!
