//! What holds of the reader's functions for all their inputs.

use vstd::prelude::*;
use crate::serial::Exchange;
use crate::text::{
    first_occurrence, is_first_occurrence, lemma_first_occurrence,
    lemma_first_occurrence_holds, occurs_at,
};
use super::constants::{INV_REQ, UUID_CHARS, UUID_OPEN, UUID_REGEX};
use super::err::ReaderErrorView;
use super::pattern::{accept, regex_compiles, regex_find, Outcome};
use super::{
    block_was_read, checked, init_replies, initialized, reported, reverse_pairs, uuid_in,
    uuid_read, wire_uuid,
};

verus! {

/// Reversing the byte pairs twice gives the UUID back.
pub proof fn lemma_reverse_twice(uuid: Seq<char>)
    requires
        uuid.len() % 2 == 0,
    ensures
        reverse_pairs(reverse_pairs(uuid)) == uuid,
{
    let once = reverse_pairs(uuid);
    let twice = reverse_pairs(once);
    assert forall|k: int| 0 <= k < uuid.len() implies twice[k] == uuid[k] by {
        let j = uuid.len() - 2 - 2 * (k / 2) + k % 2;
        assert(0 <= j < uuid.len());
        assert(twice[k] == once[j]);
        assert(j / 2 == (uuid.len() - 2) / 2 - k / 2);
        assert(j % 2 == k % 2);
        assert(uuid.len() - 2 - 2 * (j / 2) + j % 2 == k);
    }
    assert(twice =~= uuid);
}

/// Reversing moves whole byte pairs: pair `p` of the result, counted from
/// the front, is pair `p` of the UUID counted from the back, with its two
/// characters in their order.
pub proof fn lemma_reverse_keeps_pairs(uuid: Seq<char>, p: int)
    requires
        uuid.len() % 2 == 0,
        0 <= p < uuid.len() / 2,
    ensures
        reverse_pairs(uuid).len() == uuid.len(),
        reverse_pairs(uuid).subrange(2 * p, 2 * p + 2) == uuid.subrange(
            uuid.len() - 2 * p - 2,
            uuid.len() - 2 * p,
        ),
{
    let r = reverse_pairs(uuid);
    let n = uuid.len() as int;
    assert(r[2 * p] == uuid[n - 2 * p - 2]) by {
        assert((2 * p) / 2 == p);
        assert((2 * p) % 2 == 0);
    }
    assert(r[2 * p + 1] == uuid[n - 2 * p - 1]) by {
        assert((2 * p + 1) / 2 == p);
        assert((2 * p + 1) % 2 == 1);
    }
    assert(r.subrange(2 * p, 2 * p + 2) =~= uuid.subrange(n - 2 * p - 2, n - 2 * p));
}

/// A wire UUID that is found is 16 characters long.
pub proof fn lemma_wire_uuid_shape(raw: Seq<char>)
    ensures
        wire_uuid(raw) matches Some(uuid) ==> uuid.len() == UUID_CHARS,
{
    reveal_strlit("[");
    assert(UUID_OPEN@.len() == 1);
    lemma_first_occurrence_holds(raw, UUID_OPEN@);
}

/// A text that begins with `[` and 16 characters more holds those 16
/// characters as its UUID, whatever they are and whatever follows them.
pub proof fn lemma_wire_uuid_of_bracketed(uuid: Seq<char>, rest: Seq<char>)
    requires
        uuid.len() == UUID_CHARS,
    ensures
        wire_uuid(UUID_OPEN@ + uuid + rest) == Some(uuid),
{
    reveal_strlit("[");
    let opening = UUID_OPEN@;
    assert(opening.len() == 1);
    let text = opening + uuid + rest;
    assert(text.subrange(0, 1) =~= opening);
    assert(is_first_occurrence(text, opening, 0));
    lemma_first_occurrence(text, opening, 0);
    assert(text.subrange(1, 17) =~= uuid);
}

/// Text in front of and behind a reply does not change the UUID found in
/// it, as long as the text in front holds no `[`.
pub proof fn lemma_wire_uuid_ignores_noise(front: Seq<char>, body: Seq<char>, back: Seq<char>)
    requires
        wire_uuid(body).is_some(),
        forall|j: int| 0 <= j < front.len() ==> !occurs_at(front, UUID_OPEN@, j),
    ensures
        wire_uuid(front + body + back) == wire_uuid(body),
{
    reveal_strlit("[");
    let opening = UUID_OPEN@;
    assert(opening.len() == 1);
    let whole = front + body + back;
    let f = front.len() as int;
    lemma_first_occurrence_holds(body, opening);
    let i = first_occurrence(body, opening).unwrap();
    assert(is_first_occurrence(body, opening, i));
    assert(whole.subrange(f + i, f + i + 1) =~= body.subrange(i, i + 1));
    assert forall|j: int| 0 <= j < f + i implies !occurs_at(whole, opening, j) by {
        if occurs_at(whole, opening, j) {
            if j < f {
                assert(front.subrange(j, j + 1) =~= whole.subrange(j, j + 1));
                assert(occurs_at(front, opening, j));
            } else {
                assert(body.subrange(j - f, j - f + 1) =~= whole.subrange(j, j + 1));
                assert(occurs_at(body, opening, j - f));
            }
        }
    }
    assert(is_first_occurrence(whole, opening, f + i));
    lemma_first_occurrence(whole, opening, f + i);
    assert(whole.subrange(f + i + 1, f + i + 17) =~= body.subrange(i + 1, i + 17));
}

/// A reply in which the UUID pattern matches a text that begins with `[`
/// and 16 characters gives those 16 characters, with their byte pairs
/// reversed: whatever stands around the match, and whatever the 16
/// characters are.
pub proof fn lemma_bracketed_match_gives_its_uuid(
    reply: Seq<char>,
    uuid: Seq<char>,
    rest: Seq<char>,
)
    requires
        regex_compiles(UUID_REGEX@),
        regex_find(UUID_REGEX@, reply) == Some(UUID_OPEN@ + uuid + rest),
        uuid.len() == UUID_CHARS,
    ensures
        uuid_in(reply) == Ok::<Seq<char>, ReaderErrorView>(uuid),
        reported(uuid_in(reply)) == Ok::<Seq<char>, ReaderErrorView>(reverse_pairs(uuid)),
{
    let patterns = seq![UUID_REGEX@];
    assert(patterns[0] == UUID_REGEX@);
    lemma_wire_uuid_of_bracketed(uuid, rest);
}

/// Two replies in which the UUID pattern matches the same text give the
/// same UUID, whatever else they hold.
pub proof fn lemma_same_match_same_uuid(a: Seq<char>, b: Seq<char>, matched: Seq<char>)
    requires
        regex_compiles(UUID_REGEX@),
        regex_find(UUID_REGEX@, a) == Some(matched),
        regex_find(UUID_REGEX@, b) == Some(matched),
        wire_uuid(matched).is_some(),
    ensures
        uuid_in(a) == Ok::<Seq<char>, ReaderErrorView>(wire_uuid(matched).unwrap()),
        reported(uuid_in(a)) == reported(uuid_in(b)),
{
    let patterns = seq![UUID_REGEX@];
    assert(patterns[0] == UUID_REGEX@);
    assert(accept(a, patterns) == Ok::<Seq<char>, ReaderErrorView>(matched));
    assert(accept(b, patterns) == Ok::<Seq<char>, ReaderErrorView>(matched));
}

/// A reply in which the UUID pattern matches nowhere is refused, and the
/// error carries exactly the reply.
pub proof fn lemma_no_match_is_refused(reply: Seq<char>)
    requires
        regex_compiles(UUID_REGEX@),
        regex_find(UUID_REGEX@, reply).is_none(),
    ensures
        uuid_in(reply) == Err::<Seq<char>, ReaderErrorView>(
            ReaderErrorView::NoMatchingTargets(reply),
        ),
        reported(uuid_in(reply)) == uuid_in(reply),
{
    let patterns = seq![UUID_REGEX@];
    assert(patterns[0] == UUID_REGEX@);
    assert(patterns.drop_first().len() == 0);
    assert(accept(reply, patterns.drop_first()) == Err::<Seq<char>, ReaderErrorView>(
        ReaderErrorView::NoMatchingTargets(reply),
    ));
}

/// A block index above 255 is refused before any single-block command is
/// sent: the read makes the one exchange of the inventory command and no
/// other, and fails with the index where that exchange gave a UUID.
pub proof fn lemma_large_index_sends_no_block_command(
    made: Seq<Exchange>,
    block_idx: u32,
    r: Outcome,
)
    requires
        block_was_read(made, block_idx, r),
        block_idx > 255,
    ensures
        made.len() == 1,
        made[0].cmd == INV_REQ@,
        r is Err,
        uuid_read(made[0]) is Ok ==> r == Err::<Seq<char>, ReaderErrorView>(
            ReaderErrorView::BlockIdxTooLarge(block_idx),
        ),
{
}

/// The initialization succeeds exactly where all five steps were made and
/// the reply of each was accepted; the first reply that is not accepted
/// fails it, with that step's error.
pub proof fn lemma_initialized_iff_all_accepted(made: Seq<Exchange>, r: Result<(), ReaderErrorView>)
    requires
        initialized(made, r),
    ensures
        r is Ok <==> made.len() == 5 && forall|i: int|
            0 <= i < 5 ==> checked(#[trigger] made[i], init_replies()[i]) is Ok,
        r matches Err(e) ==> checked(made.last(), init_replies()[made.len() - 1]) == Err::<
            Seq<char>,
            ReaderErrorView,
        >(e),
{
    if r is Ok {
        assert forall|i: int| 0 <= i < 5 implies checked(
            #[trigger] made[i],
            init_replies()[i],
        ) is Ok by {
            if i == 4 {
                assert(made[i] == made.last());
            }
        }
    } else {
        if made.len() == 5 {
            assert(made[4] == made.last());
        }
    }
}

} // verus!
