use vstd::prelude::*;
use vstd::string::StringSliceAdditionalSpecFns;

verus! {

/// How deep YAML text may nest before it is refused. The YAML loader
/// recurses once per level of nesting, and so does dropping what it builds;
/// a layout needs two levels.
pub const MAX_NESTING: usize = 64;

/// A space or a tab.
pub open spec fn is_blank(b: u8) -> bool {
    b == 32 || b == 9
}

/// A line break: `\n` or `\r`.
pub open spec fn is_break(b: u8) -> bool {
    b == 10 || b == 13
}

/// A character that opens a block collection when a blank or a line end
/// follows it: `-`, `?` or `:`.
pub open spec fn is_indicator(b: u8) -> bool {
    b == 45 || b == 63 || b == 58
}

/// A character that opens a flow collection: `[` or `{`.
pub open spec fn is_opener(b: u8) -> bool {
    b == 91 || b == 123
}

/// The state of a scan of YAML text from its start.
/// - `line`: the nesting score of the current line so far: its leading blanks
///   plus the indicators on it that a blank or the line end follows;
/// - `leading`: the scan is still in the leading blanks of the line;
/// - `deepest`: the highest score of a finished line;
/// - `openers`: the number of `[` and `{` so far.
pub struct NestScan {
    pub line: nat,
    pub leading: bool,
    pub deepest: nat,
    pub openers: nat,
}

/// The scan after the bytes `s`.
pub open spec fn nest_scan(s: Seq<u8>) -> NestScan
    decreases s.len(),
{
    if s.len() == 0 {
        NestScan { line: 0, leading: true, deepest: 0, openers: 0 }
    } else {
        let st = nest_scan(s.drop_last());
        let c = s.last();
        let closes = s.len() >= 2 && is_indicator(s[s.len() - 2]) && (is_blank(c) || is_break(c));
        let cur = st.line + (if closes { 1nat } else { 0nat }) + (if st.leading && is_blank(c) { 1nat } else { 0nat });
        NestScan {
            line: if is_break(c) { 0 } else { cur },
            leading: is_break(c) || (st.leading && is_blank(c)),
            deepest: if is_break(c) && cur > st.deepest { cur } else { st.deepest },
            openers: st.openers + (if is_opener(c) { 1nat } else { 0nat }),
        }
    }
}

/// The score of the last line of `s`, counting an indicator at its very end.
pub open spec fn last_line_score(s: Seq<u8>) -> nat {
    let st = nest_scan(s);
    if s.len() > 0 && is_indicator(s.last()) { st.line + 1 } else { st.line }
}

/// No line of `s` scores above `MAX_NESTING`, and `s` opens at most
/// `MAX_NESTING` flow collections. Every level of block nesting needs a
/// deeper indentation than the level above or an indicator further along
/// the same line, and every level of flow nesting needs an opener, so such
/// text nests at most `3 * MAX_NESTING + 2` levels deep.
pub open spec fn shallow(s: Seq<u8>) -> bool {
    &&& nest_scan(s).deepest <= MAX_NESTING
    &&& last_line_score(s) <= MAX_NESTING
    &&& nest_scan(s).openers <= MAX_NESTING
}

/// Whether YAML text nests shallowly enough to be parsed.
pub fn is_shallow(text: &str) -> (r: bool)
    ensures
        r == shallow(text.spec_bytes()),
{
    let bytes = text.as_bytes();
    let ghost s = bytes@;
    let n = bytes.len();
    let mut line: usize = 0;
    let mut leading = true;
    let mut deepest: usize = 0;
    let mut openers: usize = 0;
    let mut i: usize = 0;
    while i < n
        invariant
            n == s.len(),
            bytes@ == s,
            i <= n,
            line <= i,
            deepest <= i,
            openers <= i,
            nest_scan(s.subrange(0, i as int)) == (NestScan {
                line: line as nat,
                leading,
                deepest: deepest as nat,
                openers: openers as nat,
            }),
        decreases n - i,
    {
        let c = bytes[i];
        let closes = i >= 1 && (bytes[i - 1] == 45 || bytes[i - 1] == 63 || bytes[i - 1] == 58)
            && (c == 32 || c == 9 || c == 10 || c == 13);
        let blank = c == 32 || c == 9;
        let brk = c == 10 || c == 13;
        let mut cur = line;
        if closes {
            cur = cur + 1;
        }
        if leading && blank {
            cur = cur + 1;
        }
        proof {
            let t = s.subrange(0, i + 1);
            assert(t.drop_last() =~= s.subrange(0, i as int));
            assert(t.last() == c);
            if i >= 1 {
                assert(t[t.len() - 2] == s[i - 1]);
            }
        }
        if brk {
            if cur > deepest {
                deepest = cur;
            }
            line = 0;
        } else {
            line = cur;
        }
        leading = brk || (leading && blank);
        if c == 91 || c == 123 {
            openers = openers + 1;
        }
        i += 1;
    }
    assert(s.subrange(0, n as int) =~= s);
    let last_ok = if n > 0 && (bytes[n - 1] == 45 || bytes[n - 1] == 63 || bytes[n - 1] == 58) {
        line < MAX_NESTING
    } else {
        line <= MAX_NESTING
    };
    deepest <= MAX_NESTING && last_ok && openers <= MAX_NESTING
}

} // verus!
