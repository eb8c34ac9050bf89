//! Checkpoint store codec: a source's durable cursor is one unsigned number,
//! kept as decimal text in a small file keyed by the source identifier. The
//! file content is intentionally minimal and human-inspectable; this module
//! decides what is written and how stored text reads back.

use vstd::prelude::*;
use crate::errors::SourceReason;
use crate::text::{
    dec_value, is_digits, lemma_dec_round_trip, parse_u64, trim_spaces, trim_spec, u64_dec,
    u64_to_string,
};

verus! {

/// The cursor a stored text denotes: blank text (a fresh, empty file) means
/// zero; otherwise the text must be a decimal number that fits the cursor
/// width. `None` marks unreadable text.
pub open spec fn checkpoint_of_text(s: Seq<char>) -> Option<nat> {
    if trim_spec(s).len() == 0 {
        Some(0)
    } else if is_digits(trim_spec(s)) && dec_value(trim_spec(s)) <= u64::MAX {
        Some(dec_value(trim_spec(s)))
    } else {
        None
    }
}

/// Reads a checkpoint file's content back as a cursor. An empty or blank
/// file is a first run and yields zero; anything that is not a decimal
/// number is a `Data` fault.
pub fn decode_checkpoint(contents: &str) -> (r: Result<u64, SourceReason>)
    ensures
        match r {
            Ok(v) => checkpoint_of_text(contents@) == Some(v as nat),
            Err(e) => checkpoint_of_text(contents@) is None && e is Data,
        },
{
    let trimmed = trim_spaces(contents);
    if trimmed.as_str().unicode_len() == 0 {
        return Ok(0);
    }
    match parse_u64(trimmed.as_str()) {
        Some(v) => Ok(v),
        None => Err(SourceReason::Data("checkpoint file does not hold a decimal cursor".to_owned())),
    }
}

/// Renders a cursor for persistence, in canonical decimal.
pub fn encode_checkpoint(v: u64) -> (r: String)
    ensures
        r@ == u64_dec(v as nat),
{
    u64_to_string(v)
}

/// The checkpoint file location for one source identifier, under the fixed
/// runtime directory.
pub fn checkpoint_file_path(key: &str) -> (r: String)
    ensures
        r@ == "./.run/.checkpoints/"@ + key@ + ".dat"@,
{
    let mut p = "./.run/.checkpoints/".to_owned();
    p.append(key);
    p.append(".dat");
    proof {
        assert(p@ =~= "./.run/.checkpoints/"@ + key@ + ".dat"@);
    }
    p
}

/// Persisting a cursor and reading it back restores exactly that cursor:
/// the decimal text written for `v` decodes to `v`. This is what makes a
/// restart resume at the persisted position.
pub proof fn lemma_checkpoint_round_trip(v: u64)
    ensures
        checkpoint_of_text(u64_dec(v as nat)) == Some(v as nat),
{
    lemma_dec_round_trip(v as nat);
    let s = u64_dec(v as nat);
    assert(s.len() > 0);
    assert(!crate::text::is_space(s[0]));
    assert(!crate::text::is_space(s.last()));
    assert(trim_spec(s) == s);
}

} // verus!
