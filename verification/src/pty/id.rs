//! Session identifiers and the names of the event channels made from them.
//!
//! An identifier is a random 128-bit UUID, held as its number. The channel on
//! which a session's output is delivered is named after the identifier's
//! hyphenated form, so that two sessions never share a channel.

use vstd::prelude::*;
use vstd::string::StringExecFns;
use crate::pty::error::PtyError;

verus! {

/// The failure that `uuid` reports for text that is no UUID.
#[verifier::external_type_specification]
#[verifier::external_body]
pub struct ExUuidError(uuid::Error);

/// The lower-case hexadecimal digit of `n`, for `n` below sixteen.
pub open spec fn hex_digit(n: u128) -> char {
    if n < 10 {
        (('0' as u8) + n) as char
    } else {
        (('a' as u8) + (n - 10)) as char
    }
}

/// The four bits of `id` that lie `shift` bits above the lowest.
pub open spec fn nibble(id: u128, shift: u128) -> u128 {
    (id >> shift) & 0xf
}

/// The hyphenated form of `id`: its thirty-two hexadecimal digits in lower
/// case, highest first, in groups of 8, 4, 4, 4 and 12 with a hyphen between
/// the groups.
pub open spec fn hyphenated(id: u128) -> Seq<char> {
    seq![
        hex_digit(nibble(id, 124)),
        hex_digit(nibble(id, 120)),
        hex_digit(nibble(id, 116)),
        hex_digit(nibble(id, 112)),
        hex_digit(nibble(id, 108)),
        hex_digit(nibble(id, 104)),
        hex_digit(nibble(id, 100)),
        hex_digit(nibble(id, 96)),
        '-',
        hex_digit(nibble(id, 92)),
        hex_digit(nibble(id, 88)),
        hex_digit(nibble(id, 84)),
        hex_digit(nibble(id, 80)),
        '-',
        hex_digit(nibble(id, 76)),
        hex_digit(nibble(id, 72)),
        hex_digit(nibble(id, 68)),
        hex_digit(nibble(id, 64)),
        '-',
        hex_digit(nibble(id, 60)),
        hex_digit(nibble(id, 56)),
        hex_digit(nibble(id, 52)),
        hex_digit(nibble(id, 48)),
        '-',
        hex_digit(nibble(id, 44)),
        hex_digit(nibble(id, 40)),
        hex_digit(nibble(id, 36)),
        hex_digit(nibble(id, 32)),
        hex_digit(nibble(id, 28)),
        hex_digit(nibble(id, 24)),
        hex_digit(nibble(id, 20)),
        hex_digit(nibble(id, 16)),
        hex_digit(nibble(id, 12)),
        hex_digit(nibble(id, 8)),
        hex_digit(nibble(id, 4)),
        hex_digit(nibble(id, 0))
    ]
}

/// Whether `id` has the version and variant bits of a random UUID.
pub open spec fn is_random_id(id: u128) -> bool {
    id & 0x0000_0000_0000_f000_c000_0000_0000_0000u128
        == 0x0000_0000_0000_4000_8000_0000_0000_0000u128
}

/// The number of the UUID that `text` spells, in any of the forms that
/// `uuid::Uuid::parse_str` takes, or `None` where `text` spells none.
pub uninterp spec fn uuid_parse(text: Seq<char>) -> Option<u128>;

/// `uuid::Uuid::new_v4`: a UUID whose bits are random but for the version,
/// which is 4, and the variant, which is that of RFC 4122. Nothing is said of
/// the other bits; two calls may give the same number. The call panics where
/// the operating system has no random bytes to give.
#[verifier::external_body]
fn new_v4() -> (out: u128)
    ensures
        is_random_id(out),
{
    uuid::Uuid::new_v4().as_u128()
}

/// `uuid::Uuid`'s `to_string`: the hyphenated lower-case form of the UUID
/// whose number is `id`, which `uuid::Uuid::parse_str` reads back as `id`.
#[verifier::external_body]
fn uuid_to_string(id: u128) -> (out: String)
    ensures
        out@ == hyphenated(id),
        uuid_parse(out@) == Some(id),
{
    uuid::Uuid::from_u128(id).to_string()
}

/// `uuid::Uuid::parse_str`: the number of the UUID that `text` spells, or
/// the crate's error where it spells none.
#[verifier::external_body]
fn uuid_parse_str(text: &str) -> (out: Result<u128, uuid::Error>)
    ensures
        match out {
            Ok(id) => uuid_parse(text@) == Some(id),
            Err(_) => uuid_parse(text@) is None,
        },
{
    uuid::Uuid::parse_str(text).map(|u| u.as_u128())
}

/// A candidate for a new session identifier: a random UUID. Whether it was
/// issued before is for the registry to tell.
pub fn fresh_id() -> (out: u128)
    ensures
        is_random_id(out),
{
    new_v4()
}

/// The text of `id`, as it is shown to callers and used in channel names.
pub fn format_id(id: u128) -> (out: String)
    ensures
        out@ == hyphenated(id),
        uuid_parse(out@) == Some(id),
{
    uuid_to_string(id)
}

/// The identifier that a parse came to: the number where there is one,
/// `InvalidId` where there is none.
pub fn id_from_parsed(parsed: Option<u128>) -> (out: Result<u128, PtyError>)
    ensures
        out == (match parsed {
            Some(id) => Ok::<u128, PtyError>(id),
            None => Err(PtyError::InvalidId),
        }),
{
    match parsed {
        Some(id) => Ok(id),
        None => Err(PtyError::InvalidId),
    }
}

/// Reads a session identifier from `text`. It succeeds exactly when `text`
/// spells a UUID, and then gives that UUID's number; the text that
/// [`format_id`] gives for an identifier is read back as that identifier.
pub fn parse_session_id(text: &str) -> (out: Result<u128, PtyError>)
    ensures
        out == (match uuid_parse(text@) {
            Some(id) => Ok::<u128, PtyError>(id),
            None => Err(PtyError::InvalidId),
        }),
{
    match uuid_parse_str(text) {
        Ok(id) => id_from_parsed(Some(id)),
        Err(_) => id_from_parsed(None),
    }
}

/// The name of the channel that carries the data events of session `id`.
pub open spec fn data_event_name(id: u128) -> Seq<char> {
    "pty-output-"@ + hyphenated(id)
}

/// The name of the channel that carries the terminated event of session `id`.
pub open spec fn exit_event_name(id: u128) -> Seq<char> {
    "pty-exit-"@ + hyphenated(id)
}

/// The name of the channel on which the output of session `id` is delivered.
pub fn data_event(id: u128) -> (out: String)
    ensures
        out@ == data_event_name(id),
{
    let mut out = String::from_str("pty-output-");
    let text = format_id(id);
    out.append(text.as_str());
    out
}

/// The name of the channel on which the end of session `id` is signalled.
pub fn exit_event(id: u128) -> (out: String)
    ensures
        out@ == exit_event_name(id),
{
    let mut out = String::from_str("pty-exit-");
    let text = format_id(id);
    out.append(text.as_str());
    out
}

/// Two numbers below sixteen with the same hexadecimal digit are equal.
pub proof fn lemma_hex_digit_injective(m: u128, n: u128)
    requires
        m < 16,
        n < 16,
        hex_digit(m) == hex_digit(n),
    ensures
        m == n,
{
}

/// Two identifiers with the same hyphenated form are the same identifier.
pub proof fn lemma_hyphenated_injective(a: u128, b: u128)
    requires
        hyphenated(a) == hyphenated(b),
    ensures
        a == b,
{
    assert forall|id: u128, shift: u128| nibble(id, shift) < 16 by {
        assert((id >> shift) & 0xf < 16) by (bit_vector);
    }
    assert(nibble(a, 124) == nibble(b, 124)) by {
        assert(hyphenated(a)[0] == hyphenated(b)[0]);
        lemma_hex_digit_injective(nibble(a, 124), nibble(b, 124));
    }
    assert(nibble(a, 120) == nibble(b, 120)) by {
        assert(hyphenated(a)[1] == hyphenated(b)[1]);
        lemma_hex_digit_injective(nibble(a, 120), nibble(b, 120));
    }
    assert(nibble(a, 116) == nibble(b, 116)) by {
        assert(hyphenated(a)[2] == hyphenated(b)[2]);
        lemma_hex_digit_injective(nibble(a, 116), nibble(b, 116));
    }
    assert(nibble(a, 112) == nibble(b, 112)) by {
        assert(hyphenated(a)[3] == hyphenated(b)[3]);
        lemma_hex_digit_injective(nibble(a, 112), nibble(b, 112));
    }
    assert(nibble(a, 108) == nibble(b, 108)) by {
        assert(hyphenated(a)[4] == hyphenated(b)[4]);
        lemma_hex_digit_injective(nibble(a, 108), nibble(b, 108));
    }
    assert(nibble(a, 104) == nibble(b, 104)) by {
        assert(hyphenated(a)[5] == hyphenated(b)[5]);
        lemma_hex_digit_injective(nibble(a, 104), nibble(b, 104));
    }
    assert(nibble(a, 100) == nibble(b, 100)) by {
        assert(hyphenated(a)[6] == hyphenated(b)[6]);
        lemma_hex_digit_injective(nibble(a, 100), nibble(b, 100));
    }
    assert(nibble(a, 96) == nibble(b, 96)) by {
        assert(hyphenated(a)[7] == hyphenated(b)[7]);
        lemma_hex_digit_injective(nibble(a, 96), nibble(b, 96));
    }
    assert(nibble(a, 92) == nibble(b, 92)) by {
        assert(hyphenated(a)[9] == hyphenated(b)[9]);
        lemma_hex_digit_injective(nibble(a, 92), nibble(b, 92));
    }
    assert(nibble(a, 88) == nibble(b, 88)) by {
        assert(hyphenated(a)[10] == hyphenated(b)[10]);
        lemma_hex_digit_injective(nibble(a, 88), nibble(b, 88));
    }
    assert(nibble(a, 84) == nibble(b, 84)) by {
        assert(hyphenated(a)[11] == hyphenated(b)[11]);
        lemma_hex_digit_injective(nibble(a, 84), nibble(b, 84));
    }
    assert(nibble(a, 80) == nibble(b, 80)) by {
        assert(hyphenated(a)[12] == hyphenated(b)[12]);
        lemma_hex_digit_injective(nibble(a, 80), nibble(b, 80));
    }
    assert(nibble(a, 76) == nibble(b, 76)) by {
        assert(hyphenated(a)[14] == hyphenated(b)[14]);
        lemma_hex_digit_injective(nibble(a, 76), nibble(b, 76));
    }
    assert(nibble(a, 72) == nibble(b, 72)) by {
        assert(hyphenated(a)[15] == hyphenated(b)[15]);
        lemma_hex_digit_injective(nibble(a, 72), nibble(b, 72));
    }
    assert(nibble(a, 68) == nibble(b, 68)) by {
        assert(hyphenated(a)[16] == hyphenated(b)[16]);
        lemma_hex_digit_injective(nibble(a, 68), nibble(b, 68));
    }
    assert(nibble(a, 64) == nibble(b, 64)) by {
        assert(hyphenated(a)[17] == hyphenated(b)[17]);
        lemma_hex_digit_injective(nibble(a, 64), nibble(b, 64));
    }
    assert(nibble(a, 60) == nibble(b, 60)) by {
        assert(hyphenated(a)[19] == hyphenated(b)[19]);
        lemma_hex_digit_injective(nibble(a, 60), nibble(b, 60));
    }
    assert(nibble(a, 56) == nibble(b, 56)) by {
        assert(hyphenated(a)[20] == hyphenated(b)[20]);
        lemma_hex_digit_injective(nibble(a, 56), nibble(b, 56));
    }
    assert(nibble(a, 52) == nibble(b, 52)) by {
        assert(hyphenated(a)[21] == hyphenated(b)[21]);
        lemma_hex_digit_injective(nibble(a, 52), nibble(b, 52));
    }
    assert(nibble(a, 48) == nibble(b, 48)) by {
        assert(hyphenated(a)[22] == hyphenated(b)[22]);
        lemma_hex_digit_injective(nibble(a, 48), nibble(b, 48));
    }
    assert(nibble(a, 44) == nibble(b, 44)) by {
        assert(hyphenated(a)[24] == hyphenated(b)[24]);
        lemma_hex_digit_injective(nibble(a, 44), nibble(b, 44));
    }
    assert(nibble(a, 40) == nibble(b, 40)) by {
        assert(hyphenated(a)[25] == hyphenated(b)[25]);
        lemma_hex_digit_injective(nibble(a, 40), nibble(b, 40));
    }
    assert(nibble(a, 36) == nibble(b, 36)) by {
        assert(hyphenated(a)[26] == hyphenated(b)[26]);
        lemma_hex_digit_injective(nibble(a, 36), nibble(b, 36));
    }
    assert(nibble(a, 32) == nibble(b, 32)) by {
        assert(hyphenated(a)[27] == hyphenated(b)[27]);
        lemma_hex_digit_injective(nibble(a, 32), nibble(b, 32));
    }
    assert(nibble(a, 28) == nibble(b, 28)) by {
        assert(hyphenated(a)[28] == hyphenated(b)[28]);
        lemma_hex_digit_injective(nibble(a, 28), nibble(b, 28));
    }
    assert(nibble(a, 24) == nibble(b, 24)) by {
        assert(hyphenated(a)[29] == hyphenated(b)[29]);
        lemma_hex_digit_injective(nibble(a, 24), nibble(b, 24));
    }
    assert(nibble(a, 20) == nibble(b, 20)) by {
        assert(hyphenated(a)[30] == hyphenated(b)[30]);
        lemma_hex_digit_injective(nibble(a, 20), nibble(b, 20));
    }
    assert(nibble(a, 16) == nibble(b, 16)) by {
        assert(hyphenated(a)[31] == hyphenated(b)[31]);
        lemma_hex_digit_injective(nibble(a, 16), nibble(b, 16));
    }
    assert(nibble(a, 12) == nibble(b, 12)) by {
        assert(hyphenated(a)[32] == hyphenated(b)[32]);
        lemma_hex_digit_injective(nibble(a, 12), nibble(b, 12));
    }
    assert(nibble(a, 8) == nibble(b, 8)) by {
        assert(hyphenated(a)[33] == hyphenated(b)[33]);
        lemma_hex_digit_injective(nibble(a, 8), nibble(b, 8));
    }
    assert(nibble(a, 4) == nibble(b, 4)) by {
        assert(hyphenated(a)[34] == hyphenated(b)[34]);
        lemma_hex_digit_injective(nibble(a, 4), nibble(b, 4));
    }
    assert(nibble(a, 0) == nibble(b, 0)) by {
        assert(hyphenated(a)[35] == hyphenated(b)[35]);
        lemma_hex_digit_injective(nibble(a, 0), nibble(b, 0));
    }
    assert(
            (a >> 124u128) & 0xf == (b >> 124u128) & 0xf &&
            (a >> 120u128) & 0xf == (b >> 120u128) & 0xf &&
            (a >> 116u128) & 0xf == (b >> 116u128) & 0xf &&
            (a >> 112u128) & 0xf == (b >> 112u128) & 0xf &&
            (a >> 108u128) & 0xf == (b >> 108u128) & 0xf &&
            (a >> 104u128) & 0xf == (b >> 104u128) & 0xf &&
            (a >> 100u128) & 0xf == (b >> 100u128) & 0xf &&
            (a >> 96u128) & 0xf == (b >> 96u128) & 0xf &&
            (a >> 92u128) & 0xf == (b >> 92u128) & 0xf &&
            (a >> 88u128) & 0xf == (b >> 88u128) & 0xf &&
            (a >> 84u128) & 0xf == (b >> 84u128) & 0xf &&
            (a >> 80u128) & 0xf == (b >> 80u128) & 0xf &&
            (a >> 76u128) & 0xf == (b >> 76u128) & 0xf &&
            (a >> 72u128) & 0xf == (b >> 72u128) & 0xf &&
            (a >> 68u128) & 0xf == (b >> 68u128) & 0xf &&
            (a >> 64u128) & 0xf == (b >> 64u128) & 0xf &&
            (a >> 60u128) & 0xf == (b >> 60u128) & 0xf &&
            (a >> 56u128) & 0xf == (b >> 56u128) & 0xf &&
            (a >> 52u128) & 0xf == (b >> 52u128) & 0xf &&
            (a >> 48u128) & 0xf == (b >> 48u128) & 0xf &&
            (a >> 44u128) & 0xf == (b >> 44u128) & 0xf &&
            (a >> 40u128) & 0xf == (b >> 40u128) & 0xf &&
            (a >> 36u128) & 0xf == (b >> 36u128) & 0xf &&
            (a >> 32u128) & 0xf == (b >> 32u128) & 0xf &&
            (a >> 28u128) & 0xf == (b >> 28u128) & 0xf &&
            (a >> 24u128) & 0xf == (b >> 24u128) & 0xf &&
            (a >> 20u128) & 0xf == (b >> 20u128) & 0xf &&
            (a >> 16u128) & 0xf == (b >> 16u128) & 0xf &&
            (a >> 12u128) & 0xf == (b >> 12u128) & 0xf &&
            (a >> 8u128) & 0xf == (b >> 8u128) & 0xf &&
            (a >> 4u128) & 0xf == (b >> 4u128) & 0xf &&
            (a >> 0u128) & 0xf == (b >> 0u128) & 0xf
        ==> a == b) by (bit_vector);
}

/// No two sessions share a channel: the names made from two different
/// identifiers differ, and no data channel has the name of an exit channel.
pub proof fn lemma_channels_distinct(a: u128, b: u128)
    ensures
        a != b ==> data_event_name(a) != data_event_name(b),
        a != b ==> exit_event_name(a) != exit_event_name(b),
        data_event_name(a) != exit_event_name(b),
{
    reveal_strlit("pty-output-");
    reveal_strlit("pty-exit-");
    let out = "pty-output-"@;
    let exit = "pty-exit-"@;
    assert(hyphenated(a).len() == 36 && hyphenated(b).len() == 36);
    assert(data_event_name(a).len() == 47);
    assert(exit_event_name(b).len() == 45);
    if data_event_name(a) == data_event_name(b) {
        assert((out + hyphenated(a)).subrange(11, 47) =~= hyphenated(a));
        assert((out + hyphenated(b)).subrange(11, 47) =~= hyphenated(b));
        lemma_hyphenated_injective(a, b);
    }
    if exit_event_name(a) == exit_event_name(b) {
        assert((exit + hyphenated(a)).subrange(9, 45) =~= hyphenated(a));
        assert((exit + hyphenated(b)).subrange(9, 45) =~= hyphenated(b));
        lemma_hyphenated_injective(a, b);
    }
}

} // verus!
