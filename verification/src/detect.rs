//! The detector: first matching rule of the table wins.

use vstd::prelude::*;

use crate::filetype::FileType;
use crate::pattern::{lemma_nonempty_no_match_on_empty, magic_matches, MagicModel};
use crate::table::{magic_map, spec_rules};

verus! {

/// The result of scanning `rules` in order against `buf`: the file type of
/// the first rule that matches, or `None` when none does.
pub open spec fn detect_in_table(rules: Seq<(MagicModel, FileType)>, buf: Seq<u8>) -> Option<
    FileType,
>
    decreases rules.len(),
{
    if rules.len() == 0 {
        None
    } else if magic_matches(rules[0].0, buf) {
        Some(rules[0].1)
    } else {
        detect_in_table(rules.drop_first(), buf)
    }
}

/// What `detect_filetype` returns on a buffer with these bytes.
pub open spec fn spec_detect(buf: Seq<u8>) -> Option<FileType> {
    detect_in_table(spec_rules(), buf)
}

/// Scanning from position `i` gives the same outcome as scanning from
/// `i + 1` when the rule at `i` does not match.
proof fn lemma_detect_skip_one(rules: Seq<(MagicModel, FileType)>, buf: Seq<u8>, i: int)
    requires
        0 <= i < rules.len(),
        !magic_matches(rules[i].0, buf),
    ensures
        detect_in_table(rules.skip(i), buf) == detect_in_table(rules.skip(i + 1), buf),
{
    assert(rules.skip(i)[0] == rules[i]);
    assert(rules.skip(i).drop_first() =~= rules.skip(i + 1));
}

/// Identifies the format of `bytes` from its magic numbers: the file type
/// of the first rule of the table that matches, or `None` when no rule
/// does. Total over all buffers, the empty one included.
pub fn detect_filetype(bytes: &[u8]) -> (r: Option<FileType>)
    ensures
        r == spec_detect(bytes@),
{
    let table = magic_map();
    let n = table.len();
    assert(spec_rules().skip(0) =~= spec_rules());
    let mut i: usize = 0;
    while i < n
        invariant
            n == table@.len(),
            table@.len() == spec_rules().len(),
            forall|k: int| 0 <= k < table@.len() ==> (#[trigger] table@[k]).0@ == spec_rules()[k].0
                && table@[k].1 == spec_rules()[k].1,
            0 <= i <= n,
            detect_in_table(spec_rules().skip(i as int), bytes@) == spec_detect(bytes@),
        decreases n - i,
    {
        if table[i].0.matches(bytes) {
            proof {
                assert(spec_rules().skip(i as int)[0] == spec_rules()[i as int]);
            }
            return Some(table[i].1);
        }
        proof {
            lemma_detect_skip_one(spec_rules(), bytes@, i as int);
        }
        i += 1;
    }
    proof {
        assert(spec_rules().skip(n as int) =~= Seq::<(MagicModel, FileType)>::empty());
    }
    None
}

/// Scanning a table none of whose rules matches yields no result.
pub proof fn lemma_no_match_gives_none(rules: Seq<(MagicModel, FileType)>, buf: Seq<u8>)
    requires
        forall|j: int| 0 <= j < rules.len() ==> !magic_matches((#[trigger] rules[j]).0, buf),
    ensures
        detect_in_table(rules, buf) == None::<FileType>,
    decreases rules.len(),
{
    if rules.len() > 0 {
        assert forall|j: int| 0 <= j < rules.drop_first().len() implies !magic_matches(
            (#[trigger] rules.drop_first()[j]).0,
            buf,
        ) by {
            assert(rules.drop_first()[j] == rules[j + 1]);
        }
        lemma_no_match_gives_none(rules.drop_first(), buf);
    }
}

/// Table order resolves ties: when the rule at position `i` matches and no
/// earlier rule does, the scan returns that rule's file type — the earliest
/// matching entry wins, even if later rules match too.
pub proof fn lemma_first_match_wins(
    rules: Seq<(MagicModel, FileType)>,
    buf: Seq<u8>,
    i: int,
)
    requires
        0 <= i < rules.len(),
        magic_matches(rules[i].0, buf),
        forall|j: int| 0 <= j < i ==> !magic_matches((#[trigger] rules[j]).0, buf),
    ensures
        detect_in_table(rules, buf) == Some(rules[i].1),
    decreases i,
{
    if i > 0 {
        assert(!magic_matches(rules[0].0, buf));
        assert(rules.drop_first()[i - 1] == rules[i]);
        assert forall|j: int| 0 <= j < i - 1 implies !magic_matches(
            (#[trigger] rules.drop_first()[j]).0,
            buf,
        ) by {
            assert(rules.drop_first()[j] == rules[j + 1]);
        }
        lemma_first_match_wins(rules.drop_first(), buf, i - 1);
    }
}

/// Every rule of the table requires at least one byte at one of its
/// anchors: the table holds no all-null rule.
pub proof fn lemma_rules_nontrivial()
    ensures
        forall|j: int| 0 <= j < spec_rules().len() ==> (#[trigger] spec_rules()[j]).0.start.bytes.len()
            > 0 || spec_rules()[j].0.end.bytes.len() > 0,
{
}

/// No pattern with required bytes can match a buffer with none, so
/// detection of the empty buffer finds nothing.
pub proof fn lemma_detect_empty_is_none(buf: Seq<u8>)
    requires
        buf.len() == 0,
    ensures
        spec_detect(buf) == None::<FileType>,
{
    lemma_rules_nontrivial();
    assert forall|j: int| 0 <= j < spec_rules().len() implies !magic_matches(
        (#[trigger] spec_rules()[j]).0,
        buf,
    ) by {
        if spec_rules()[j].0.start.bytes.len() > 0 {
            lemma_nonempty_no_match_on_empty(spec_rules()[j].0.start, buf);
        } else {
            lemma_nonempty_no_match_on_empty(spec_rules()[j].0.end, buf);
        }
    }
    lemma_no_match_gives_none(spec_rules(), buf);
}

/// Detection is a pure function of the buffer's bytes: the same buffer
/// read twice, or a byte-for-byte copy of it, always detects as the same
/// file type.
pub proof fn lemma_detect_deterministic(a: Seq<u8>, b: Seq<u8>)
    requires
        a == b,
    ensures
        spec_detect(a) == spec_detect(b),
{
}

} // verus!
