//! The protocol engine: initialization of the reader, and the reads of a
//! tag's UUID and of one block of its memory.

use vstd::prelude::*;
use vstd::string::*;
use crate::text::{
    chars_of, find_first, first_occurrence, hex_digit, hex_digit_of, string_of,
};
use crate::serial::err::SerialError;
use crate::serial::{Exchange, RFIDSerialTraits};
use self::constants::{
    AGC, AGC_RES, AGC_RES_2, AM, AM_RES, AM_RES_2, EXT_ANT, EXT_ANT_RES, INV_REQ, ISO, ISO_RES,
    RF_HALF_DATA, RF_HALF_DATA_RES, SINGLE_BLK_CHARS, SINGLE_BLK_OFFSET, SINGLE_BLK_REGEX,
    SINGLE_BLK_REQ, SINGLE_BLK_REQ_END, SINGLE_BLK_START, UUID_CHARS, UUID_OFFSET, UUID_OPEN,
    UUID_REGEX,
};
use self::err::{ReaderError, ReaderErrorView};
use self::pattern::{
    accept, first_match, is_pattern, lemma_accept_of_valid_patterns, outcome_of, regex_compiles,
    texts_of, Outcome,
};

pub mod constants;
pub mod err;
pub mod laws;
pub mod pattern;

verus! {

/// The tag UUID that a reply of the inventory command holds, as it stands on
/// the wire: the 16 characters behind the first `[` of the text, whatever
/// they are. There is none where the text holds no `[`, or ends before the
/// UUID does.
pub open spec fn wire_uuid(raw: Seq<char>) -> Option<Seq<char>> {
    match first_occurrence(raw, UUID_OPEN@) {
        Some(i) => if i + UUID_OFFSET + UUID_CHARS <= raw.len() {
            Some(raw.subrange(i + UUID_OFFSET, i + UUID_OFFSET + UUID_CHARS))
        } else {
            None
        },
        None => None,
    }
}

/// `u` with its two-character pairs in reverse order: the last pair comes
/// first, and the two characters of a pair keep their order.
pub open spec fn reverse_pairs(u: Seq<char>) -> Seq<char> {
    Seq::new(u.len(), |k: int| u[u.len() - 2 - 2 * (k / 2) + k % 2])
}

/// The payload of a single-block reply: the 8 characters that begin three
/// places behind the first `[` of the text. There is none where the text
/// holds no `[`, or ends before the payload does.
pub open spec fn block_payload(raw: Seq<char>) -> Option<Seq<char>> {
    match first_occurrence(raw, SINGLE_BLK_START@) {
        Some(i) => if i + SINGLE_BLK_OFFSET + SINGLE_BLK_CHARS <= raw.len() {
            Some(
                raw.subrange(
                    i + SINGLE_BLK_OFFSET,
                    i + SINGLE_BLK_OFFSET + SINGLE_BLK_CHARS,
                ),
            )
        } else {
            None
        },
        None => None,
    }
}

/// A block index as the command carries it: two upper-case hexadecimal digits.
pub open spec fn block_hex(block_idx: nat) -> Seq<char> {
    seq![hex_digit(block_idx / 16), hex_digit(block_idx % 16)]
}

/// The command that reads block `block_idx` of the tag `uuid`.
pub open spec fn block_command(uuid: Seq<char>, block_idx: nat) -> Seq<char> {
    SINGLE_BLK_REQ@ + uuid + block_hex(block_idx) + SINGLE_BLK_REQ_END@
}

/// The wire UUID in `raw_str`, where there is one.
pub fn find_uuid(raw_str: &str) -> (r: Option<String>)
    ensures
        match r {
            Some(uuid) => wire_uuid(raw_str@) == Some(uuid@) && uuid@.len() == UUID_CHARS,
            None => wire_uuid(raw_str@).is_none(),
        },
{
    let s = chars_of(raw_str);
    let opening = chars_of(UUID_OPEN);
    proof {
        reveal_strlit("[");
        assert(UUID_OPEN@.len() == 1);
    }
    match find_first(&s, &opening) {
        Some(at) => {
            if s.len() - at < UUID_OFFSET + UUID_CHARS {
                None
            } else {
                let start = at + UUID_OFFSET;
                Some(string_of(&s, start, start + UUID_CHARS))
            }
        },
        None => None,
    }
}

/// The wire UUID in `raw_str`.
pub fn get_uuid(raw_str: &str) -> (uuid: String)
    requires
        wire_uuid(raw_str@).is_some(),
    ensures
        wire_uuid(raw_str@) == Some(uuid@),
{
    find_uuid(raw_str).unwrap()
}

/// The UUID as it is reported: the wire UUID with its byte pairs reversed.
pub fn reverse_uuid(uuid: &str) -> (reversed: String)
    requires
        uuid@.len() == UUID_CHARS,
    ensures
        reversed@ == reverse_pairs(uuid@),
{
    let s = chars_of(uuid);
    let n = s.len();
    let mut reversed = String::new();
    let mut i: usize = 1;
    while i < n / 2 + 1
        invariant
            n == UUID_CHARS,
            s@ == uuid@,
            n == s.len(),
            1 <= i <= n / 2 + 1,
            reversed@ == reverse_pairs(uuid@).take(2 * (i - 1)),
        decreases n / 2 + 1 - i,
    {
        let char_idx = n - i * 2;
        reversed.push(s[char_idx]);
        reversed.push(s[char_idx + 1]);
        proof {
            let full = reverse_pairs(uuid@);
            let k = 2 * (i - 1);
            assert(full[k] == s@[char_idx as int]);
            assert(full[k + 1] == s@[char_idx + 1]);
            assert(reversed@ =~= full.take(2 * i));
        }
        i += 1;
    }
    assert(reverse_pairs(uuid@).take(n as int) =~= reverse_pairs(uuid@));
    reversed
}

/// The payload in the text of a single-block reply, where there is one.
pub fn find_block(raw_data: &str) -> (r: Option<String>)
    ensures
        match r {
            Some(data) => block_payload(raw_data@) == Some(data@),
            None => block_payload(raw_data@).is_none(),
        },
{
    let s = chars_of(raw_data);
    let opening = chars_of(SINGLE_BLK_START);
    proof {
        reveal_strlit("[");
        assert(SINGLE_BLK_START@.len() == 1);
    }
    match find_first(&s, &opening) {
        Some(at) => {
            if s.len() - at < SINGLE_BLK_OFFSET + SINGLE_BLK_CHARS {
                None
            } else {
                let start = at + SINGLE_BLK_OFFSET;
                let end = start + SINGLE_BLK_CHARS;
                Some(string_of(&s, start, end))
            }
        },
        None => None,
    }
}

/// The command that reads block `block_idx` of the tag `raw_uuid`. An index
/// above 255 does not fit in the command's two digits and is refused.
pub fn single_block_command(raw_uuid: &str, block_idx: u32) -> (r: Result<String, ReaderError>)
    ensures
        match r {
            Ok(cmd) => block_idx <= 255 && cmd@ == block_command(raw_uuid@, block_idx as nat),
            Err(e) => block_idx > 255 && e == ReaderError::BlockIdxTooLarge(block_idx),
        },
{
    if block_idx > 255 {
        return Err(ReaderError::BlockIdxTooLarge(block_idx));
    }
    let idx: u8 = block_idx as u8;
    let mut cmd = String::from_str(SINGLE_BLK_REQ);
    cmd.append(raw_uuid);
    cmd.push(hex_digit_of(idx / 16));
    cmd.push(hex_digit_of(idx % 16));
    cmd.append(SINGLE_BLK_REQ_END);
    proof {
        assert(cmd@ =~= block_command(raw_uuid@, block_idx as nat));
    }
    Ok(cmd)
}

/// What the reply text of the inventory command gives: the wire UUID of the
/// tag in the field. The text must match the UUID pattern, and the matched
/// part must hold a UUID; else the reply is refused, and the error carries
/// it whole.
pub open spec fn uuid_in(reply: Seq<char>) -> Outcome {
    match accept(reply, seq![UUID_REGEX@]) {
        Ok(m) => match wire_uuid(m) {
            Some(uuid) => Ok(uuid),
            None => Err(ReaderErrorView::NoMatchingTargets(reply)),
        },
        Err(e) => Err(e),
    }
}

/// What the reply text of a single-block command gives: the block's payload.
/// The text must match the block pattern, and the matched part must hold a
/// payload; else the reply is refused, and the error carries it whole.
pub open spec fn block_in(reply: Seq<char>) -> Outcome {
    match accept(reply, seq![SINGLE_BLK_REGEX@]) {
        Ok(m) => match block_payload(m) {
            Some(data) => Ok(data),
            None => Err(ReaderErrorView::NoMatchingTargets(reply)),
        },
        Err(e) => Err(e),
    }
}

/// The wire UUID in the reply text of the inventory command.
pub fn uuid_in_reply(reply: &str) -> (r: Result<String, ReaderError>)
    ensures
        outcome_of(r) == uuid_in(reply@),
        r matches Ok(uuid) ==> uuid@.len() == UUID_CHARS,
{
    let patterns = vec![UUID_REGEX];
    assert(texts_of(patterns@) == seq![UUID_REGEX@]);
    match first_match(reply, &patterns) {
        Ok(m) => match find_uuid(m.as_str()) {
            Some(uuid) => Ok(uuid),
            None => Err(ReaderError::NoMatchingTargets(String::from_str(reply))),
        },
        Err(e) => Err(e),
    }
}

/// The payload in the reply text of a single-block command.
pub fn block_in_reply(reply: &str) -> (r: Result<String, ReaderError>)
    ensures
        outcome_of(r) == block_in(reply@),
{
    let patterns = vec![SINGLE_BLK_REGEX];
    assert(texts_of(patterns@) == seq![SINGLE_BLK_REGEX@]);
    match first_match(reply, &patterns) {
        Ok(m) => match find_block(m.as_str()) {
            Some(data) => Ok(data),
            None => Err(ReaderError::NoMatchingTargets(String::from_str(reply))),
        },
        Err(e) => Err(e),
    }
}

/// The operations of a reader. The service above is written against this
/// trait, so that another reader can stand in for the device.
pub trait ReaderTraits: Send + Sync {
    /// The UUID of the tag in the field, as it is reported.
    fn read_uuid(&mut self) -> Result<String, ReaderError>;

    /// One block of the memory of the tag in the field.
    fn read_single_block(&mut self, block_idx: u32) -> Result<String, ReaderError>;

    /// `num_blocks` blocks of the memory of the tag in the field.
    fn read_multiple_block(&mut self, block_idx: u32, num_blocks: u32) -> Result<
        String,
        ReaderError,
    >;
}

/// What one exchange gives where its reply is checked against `patterns`:
/// the error of the link, or what `accept` makes of the reply text.
pub open spec fn checked(x: Exchange, patterns: Seq<Seq<char>>) -> Outcome {
    match x.reply {
        Ok(text) => accept(text@, patterns),
        Err(e) => Err(ReaderErrorView::SerialError(e)),
    }
}

/// What the exchange of the inventory command gives: the wire UUID.
pub open spec fn uuid_read(x: Exchange) -> Outcome {
    match x.reply {
        Ok(text) => uuid_in(text@),
        Err(e) => Err(ReaderErrorView::SerialError(e)),
    }
}

/// What the exchange of a single-block command gives: the payload.
pub open spec fn block_read(x: Exchange) -> Outcome {
    match x.reply {
        Ok(text) => block_in(text@),
        Err(e) => Err(ReaderErrorView::SerialError(e)),
    }
}

/// The UUID as it is reported, for a wire UUID that was read.
pub open spec fn reported(wire: Outcome) -> Outcome {
    match wire {
        Ok(uuid) => Ok(reverse_pairs(uuid)),
        Err(e) => Err(e),
    }
}

/// `after` is `before` and one exchange more, of the command `cmd`.
pub open spec fn one_more(before: Seq<Exchange>, after: Seq<Exchange>, cmd: Seq<char>) -> bool {
    &&& after.len() == before.len() + 1
    &&& after.drop_last() == before
    &&& after.last().cmd == cmd
}

/// The commands of the initialization, in the order they are sent: ISO mode,
/// half-power RF data rate, AGC toggle, AM/PM toggle, external antenna.
pub open spec fn init_commands() -> Seq<Seq<char>> {
    seq![ISO@, RF_HALF_DATA@, AGC@, AM@, EXT_ANT@]
}

/// The replies accepted for each command of the initialization.
pub open spec fn init_replies() -> Seq<Seq<Seq<char>>> {
    seq![
        seq![ISO_RES@],
        seq![RF_HALF_DATA_RES@],
        seq![AGC_RES@, AGC_RES_2@],
        seq![AM_RES@, AM_RES_2@],
        seq![EXT_ANT_RES@],
    ]
}

/// What the initialization owes for the exchanges `made`.
///
/// The commands of the initialization were sent in order, one exchange each,
/// and every reply but the last was accepted. Where the last reply was
/// accepted too, all five steps were made, and the initialization succeeds.
/// Else it fails with the error of that step, and no further command was
/// sent.
pub open spec fn initialized(made: Seq<Exchange>, r: Result<(), ReaderErrorView>) -> bool {
    &&& 1 <= made.len() <= 5
    &&& forall|i: int| 0 <= i < made.len() ==> (#[trigger] made[i]).cmd == init_commands()[i]
    &&& forall|i: int|
        0 <= i < made.len() - 1 ==> checked(#[trigger] made[i], init_replies()[i]) is Ok
    &&& match checked(made.last(), init_replies()[made.len() - 1]) {
        Ok(_) => made.len() == 5 && r is Ok,
        Err(e) => r == Err::<(), ReaderErrorView>(e),
    }
}

/// What a read of one block owes for the exchanges `made`.
///
/// The inventory command was sent first. Where it gave no UUID, its error
/// is the result and nothing else was sent. Where it gave one and the block
/// index is above 255, the index is refused and nothing else was sent. Else
/// the single-block command for that UUID and index was sent, and what its
/// exchange gives is the result.
pub open spec fn block_was_read(made: Seq<Exchange>, block_idx: u32, r: Outcome) -> bool {
    &&& made.len() >= 1
    &&& made[0].cmd == INV_REQ@
    &&& match uuid_read(made[0]) {
        Err(e) => made.len() == 1 && r == Err::<Seq<char>, ReaderErrorView>(e),
        Ok(uuid) => if block_idx > 255 {
            made.len() == 1 && r == Err::<Seq<char>, ReaderErrorView>(
                ReaderErrorView::BlockIdxTooLarge(block_idx),
            )
        } else {
            &&& made.len() == 2
            &&& made[1].cmd == block_command(uuid, block_idx as nat)
            &&& r == block_read(made[1])
        },
    }
}

/// A result without a value, with its texts as character sequences.
pub open spec fn done_of(r: Result<(), ReaderError>) -> Result<(), ReaderErrorView> {
    match r {
        Ok(_) => Ok(()),
        Err(e) => Err(e@),
    }
}

/// What one step of the initialization owes: one exchange more, of the
/// command of step `step`; success where its reply is accepted for that
/// step, and else the error of the check.
pub open spec fn stepped(
    before: Seq<Exchange>,
    after: Seq<Exchange>,
    step: int,
    r: Result<(), ReaderError>,
) -> bool {
    &&& one_more(before, after, init_commands()[step])
    &&& match checked(after.last(), init_replies()[step]) {
        Ok(_) => r is Ok,
        Err(e) => done_of(r) == Err::<(), ReaderErrorView>(e),
    }
}

/// Every pattern of the command set is a regular expression.
pub open spec fn patterns_compile() -> bool {
    &&& regex_compiles(ISO_RES@)
    &&& regex_compiles(RF_HALF_DATA_RES@)
    &&& regex_compiles(AGC_RES@)
    &&& regex_compiles(AGC_RES_2@)
    &&& regex_compiles(AM_RES@)
    &&& regex_compiles(AM_RES_2@)
    &&& regex_compiles(EXT_ANT_RES@)
    &&& regex_compiles(UUID_REGEX@)
    &&& regex_compiles(SINGLE_BLK_REGEX@)
}

/// Checks that `pattern` is a regular expression.
pub fn check_pattern(pattern: &str) -> (r: Result<(), ReaderError>)
    ensures
        match r {
            Ok(_) => regex_compiles(pattern@),
            Err(e) => !regex_compiles(pattern@) && e@ == ReaderErrorView::InvalidRegex(pattern@),
        },
{
    if is_pattern(pattern) {
        Ok(())
    } else {
        Err(ReaderError::InvalidRegex(String::from_str(pattern)))
    }
}

/// The evidence that every pattern of the command set is a regular
/// expression. Only `check_patterns` makes one.
pub struct PatternsChecked {
    evidence: (),
}

impl PatternsChecked {
    #[verifier::type_invariant]
    spec fn holds(&self) -> bool {
        patterns_compile()
    }
}

/// Checks that every pattern of the command set is a regular expression.
/// One that is not is a defect of the command set itself; the error
/// carries it.
pub fn check_patterns() -> (r: Result<PatternsChecked, ReaderError>)
    ensures
        match r {
            Ok(_) => patterns_compile(),
            Err(e) => !patterns_compile() && (e@ matches ReaderErrorView::InvalidRegex(p)
                && !regex_compiles(p)),
        },
{
    let patterns = vec![
        ISO_RES,
        RF_HALF_DATA_RES,
        AGC_RES,
        AGC_RES_2,
        AM_RES,
        AM_RES_2,
        EXT_ANT_RES,
        UUID_REGEX,
        SINGLE_BLK_REGEX,
    ];
    let mut i: usize = 0;
    while i < patterns.len()
        invariant
            i <= patterns.len(),
            patterns@ == seq![
                ISO_RES,
                RF_HALF_DATA_RES,
                AGC_RES,
                AGC_RES_2,
                AM_RES,
                AM_RES_2,
                EXT_ANT_RES,
                UUID_REGEX,
                SINGLE_BLK_REGEX,
            ],
            forall|j: int| 0 <= j < i ==> regex_compiles(#[trigger] patterns@[j]@),
        decreases patterns.len() - i,
    {
        if let Err(e) = check_pattern(patterns[i]) {
            return Err(e);
        }
        i += 1;
    }
    proof {
        assert(regex_compiles(patterns@[0]@));
        assert(regex_compiles(patterns@[1]@));
        assert(regex_compiles(patterns@[2]@));
        assert(regex_compiles(patterns@[3]@));
        assert(regex_compiles(patterns@[4]@));
        assert(regex_compiles(patterns@[5]@));
        assert(regex_compiles(patterns@[6]@));
        assert(regex_compiles(patterns@[7]@));
        assert(regex_compiles(patterns@[8]@));
    }
    Ok(PatternsChecked { evidence: () })
}

/// Patterns that compile never give the error of one that does not.
pub open spec fn no_pattern_error(r: Outcome) -> bool {
    !(r matches Err(ReaderErrorView::InvalidRegex(_)))
}

/// The protocol engine on one link.
pub struct Reader {
    serial: Box<dyn RFIDSerialTraits>,
    checked: PatternsChecked,
    exchanges: Ghost<Seq<Exchange>>,
}

/// A link whose device is not initialized yet. No read can be made on it:
/// only a handshake that succeeds gives a reader.
pub struct Handshake {
    reader: Reader,
}

/// A handshake that failed: the error, and the record of what went over
/// the link. The link itself is gone, so the handshake cannot be tried
/// again on it.
pub struct Refused {
    error: ReaderError,
    exchanges: Ghost<Seq<Exchange>>,
}

impl Refused {
    /// Every exchange that was made on the link, oldest first.
    pub closed spec fn exchanges(&self) -> Seq<Exchange> {
        self.exchanges@
    }

    /// The error that the handshake failed with.
    pub closed spec fn error(&self) -> ReaderError {
        self.error
    }

    /// The error that the handshake failed with.
    pub fn into_error(self) -> (e: ReaderError)
        ensures
            e == self.error(),
    {
        self.error
    }
}

impl Handshake {
    /// Every exchange that was made on the link so far, oldest first.
    pub closed spec fn exchanges(&self) -> Seq<Exchange> {
        self.reader.exchanges()
    }

    /// Takes the link, and checks the patterns of the command set: one that
    /// is no regular expression fails the handshake before anything is
    /// sent. Nothing has gone over the link of a handshake that begins.
    pub fn begin(serial: Box<dyn RFIDSerialTraits>) -> (r: Result<Handshake, ReaderError>)
        ensures
            match r {
                Ok(handshake) => patterns_compile() && handshake.exchanges() == Seq::<
                    Exchange,
                >::empty(),
                Err(e) => !patterns_compile() && (e@ matches ReaderErrorView::InvalidRegex(p)
                    && !regex_compiles(p)),
            },
    {
        match check_patterns() {
            Ok(checked) => Ok(
                Handshake {
                    reader: Reader {
                        serial: serial,
                        checked: checked,
                        exchanges: Ghost(Seq::empty()),
                    },
                },
            ),
            Err(e) => Err(e),
        }
    }

    /// Makes the five steps of the initialization, in order, up to the
    /// first that fails.
    ///
    /// The exchanges made are held to `initialized`. Where all five steps
    /// were accepted, the result is the reader, with those exchanges on its
    /// record. Else it is the error of the step that was not accepted,
    /// with the exchanges that were made up to it; no command of a later
    /// step was sent.
    pub fn initialize(self) -> (r: Result<Reader, Refused>)
        ensures
            match r {
                Ok(reader) => {
                    &&& self.exchanges().is_prefix_of(reader.exchanges())
                    &&& initialized(
                        reader.exchanges().skip(self.exchanges().len() as int),
                        Ok(()),
                    )
                },
                Err(refused) => {
                    &&& self.exchanges().is_prefix_of(refused.exchanges())
                    &&& initialized(
                        refused.exchanges().skip(self.exchanges().len() as int),
                        Err(refused.error()@),
                    )
                },
            },
    {
        let mut reader = self.reader;
        match reader.initialize() {
            Ok(_) => Ok(reader),
            Err(e) => Err(Refused { error: e, exchanges: Ghost(reader.exchanges()) }),
        }
    }
}

impl Reader {
    /// Every exchange this reader made on its link, oldest first.
    pub closed spec fn exchanges(&self) -> Seq<Exchange> {
        self.exchanges@
    }

    /// Takes the link and initializes the device on it: a handshake that is
    /// begun and made at once.
    ///
    /// The patterns of the command set are checked first: one that is no
    /// regular expression fails the construction before anything is sent.
    /// Then the five steps of the initialization are made. The reader
    /// exists only where all of them were accepted; else the construction
    /// fails with the error of the step that was not. The record of a
    /// failed handshake is lost here: `Handshake::initialize` hands it out.
    pub fn new(serial: Box<dyn RFIDSerialTraits>) -> (r: Result<Reader, ReaderError>)
        ensures
            match r {
                Ok(reader) => patterns_compile() && initialized(reader.exchanges(), Ok(())),
                Err(e) => if patterns_compile() {
                    exists|made: Seq<Exchange>| initialized(made, Err(e@))
                } else {
                    e@ matches ReaderErrorView::InvalidRegex(p) && !regex_compiles(p)
                },
            },
    {
        let handshake = match Handshake::begin(serial) {
            Ok(handshake) => handshake,
            Err(e) => {
                return Err(e);
            },
        };
        match handshake.initialize() {
            Ok(reader) => {
                assert(reader.exchanges().skip(0) == reader.exchanges());
                Ok(reader)
            },
            Err(refused) => {
                assert(refused.exchanges().skip(0) == refused.exchanges());
                Err(refused.into_error())
            },
        }
    }

    /// One exchange on the link.
    fn exchange(&mut self, cmd: &str) -> (r: Result<String, SerialError>)
        ensures
            final(self).exchanges() == old(self).exchanges().push(
                Exchange { cmd: cmd@, reply: r },
            ),
    {
        let r = self.serial.send_recv(cmd);
        self.exchanges = Ghost(self.exchanges@.push(Exchange { cmd: cmd@, reply: r }));
        r
    }

    /// The wire UUID of the tag in the field: one exchange of the inventory
    /// command.
    fn read_raw_uuid(&mut self) -> (r: Result<String, ReaderError>)
        ensures
            one_more(old(self).exchanges(), final(self).exchanges(), INV_REQ@),
            outcome_of(r) == uuid_read(final(self).exchanges().last()),
            r matches Ok(uuid) ==> uuid@.len() == UUID_CHARS,
            no_pattern_error(outcome_of(r)),
    {
        proof {
            use_type_invariant(&self.checked);
        }
        let ghost before = self.exchanges();
        match self.exchange(INV_REQ) {
            Ok(res) => {
                proof {
                    assert(self.exchanges().drop_last() == before);
                    lemma_accept_of_valid_patterns(res@, seq![UUID_REGEX@]);
                }
                uuid_in_reply(res.as_str())
            },
            Err(e) => {
                assert(self.exchanges().drop_last() == before);
                Err(ReaderError::SerialError(e))
            },
        }
    }

    /// Sends `cmd` and checks the reply against `regex`: the part of the
    /// reply that the first matching pattern covers.
    fn send_read_regex(&mut self, cmd: &str, regex: &Vec<&str>) -> (r: Result<
        String,
        ReaderError,
    >)
        ensures
            one_more(old(self).exchanges(), final(self).exchanges(), cmd@),
            outcome_of(r) == checked(final(self).exchanges().last(), texts_of(regex@)),
    {
        let ghost before = self.exchanges();
        match self.exchange(cmd) {
            Ok(read) => {
                assert(self.exchanges().drop_last() == before);
                first_match(read.as_str(), regex)
            },
            Err(e) => {
                assert(self.exchanges().drop_last() == before);
                Err(ReaderError::SerialError(e))
            },
        }
    }

    /// One step of the initialization: sends the command of step `step` and
    /// checks the reply against what that step accepts.
    fn configure(&mut self, step: usize, cmd: &str, accepted: &Vec<&str>) -> (r: Result<
        (),
        ReaderError,
    >)
        requires
            step < 5,
            cmd@ == init_commands()[step as int],
            texts_of(accepted@) == init_replies()[step as int],
        ensures
            stepped(old(self).exchanges(), final(self).exchanges(), step as int, r),
    {
        match self.send_read_regex(cmd, accepted) {
            Ok(_) => Ok(()),
            Err(e) => Err(e),
        }
    }

    /// Sets the ISO mode.
    fn set_iso(&mut self) -> (r: Result<(), ReaderError>)
        ensures
            stepped(old(self).exchanges(), final(self).exchanges(), 0, r),
    {
        let accepted = vec![ISO_RES];
        assert(texts_of(accepted@) == init_replies()[0]);
        self.configure(0, ISO, &accepted)
    }

    /// Sets the half-power RF data rate.
    fn set_half_data(&mut self) -> (r: Result<(), ReaderError>)
        ensures
            stepped(old(self).exchanges(), final(self).exchanges(), 1, r),
    {
        let accepted = vec![RF_HALF_DATA_RES];
        assert(texts_of(accepted@) == init_replies()[1]);
        self.configure(1, RF_HALF_DATA, &accepted)
    }

    /// Toggles the automatic gain control.
    fn set_agc(&mut self) -> (r: Result<(), ReaderError>)
        ensures
            stepped(old(self).exchanges(), final(self).exchanges(), 2, r),
    {
        let accepted = vec![AGC_RES, AGC_RES_2];
        assert(texts_of(accepted@) == init_replies()[2]);
        self.configure(2, AGC, &accepted)
    }

    /// Toggles between amplitude and phase modulation input.
    fn set_am(&mut self) -> (r: Result<(), ReaderError>)
        ensures
            stepped(old(self).exchanges(), final(self).exchanges(), 3, r),
    {
        let accepted = vec![AM_RES, AM_RES_2];
        assert(texts_of(accepted@) == init_replies()[3]);
        self.configure(3, AM, &accepted)
    }

    /// Selects the external antenna.
    fn set_antenna(&mut self) -> (r: Result<(), ReaderError>)
        ensures
            stepped(old(self).exchanges(), final(self).exchanges(), 4, r),
    {
        let accepted = vec![EXT_ANT_RES];
        assert(texts_of(accepted@) == init_replies()[4]);
        self.configure(4, EXT_ANT, &accepted)
    }

    /// The five steps of the initialization, in order, up to the first that
    /// fails.
    fn initialize(&mut self) -> (r: Result<(), ReaderError>)
        ensures
            old(self).exchanges().is_prefix_of(final(self).exchanges()),
            initialized(
                final(self).exchanges().skip(old(self).exchanges().len() as int),
                done_of(r),
            ),
    {
        let ghost before = self.exchanges();
        let ghost n = before.len() as int;
        if let Err(e) = self.set_iso() {
            proof {
                let made = self.exchanges().skip(n);
                assert(made.last() == self.exchanges().last());
            }
            return Err(e);
        }
        let ghost x0 = self.exchanges().last();
        let ghost after0 = self.exchanges();
        if let Err(e) = self.set_half_data() {
            proof {
                let made = self.exchanges().skip(n);
                assert(self.exchanges().drop_last() == after0);
                assert(made.last() == self.exchanges().last());
                assert(made[0] == x0);
            }
            return Err(e);
        }
        let ghost x1 = self.exchanges().last();
        let ghost after1 = self.exchanges();
        if let Err(e) = self.set_agc() {
            proof {
                let made = self.exchanges().skip(n);
                assert(self.exchanges().drop_last() == after1);
                assert(after1.drop_last() == after0);
                assert(made.last() == self.exchanges().last());
                assert(made[0] == x0);
                assert(made[1] == x1);
            }
            return Err(e);
        }
        let ghost x2 = self.exchanges().last();
        let ghost after2 = self.exchanges();
        if let Err(e) = self.set_am() {
            proof {
                let made = self.exchanges().skip(n);
                assert(self.exchanges().drop_last() == after2);
                assert(after2.drop_last() == after1);
                assert(after1.drop_last() == after0);
                assert(made.last() == self.exchanges().last());
                assert(made[0] == x0);
                assert(made[1] == x1);
                assert(made[2] == x2);
            }
            return Err(e);
        }
        let ghost x3 = self.exchanges().last();
        let ghost after3 = self.exchanges();
        let r = self.set_antenna();
        proof {
            let made = self.exchanges().skip(n);
            assert(self.exchanges().drop_last() == after3);
            assert(after3.drop_last() == after2);
            assert(after2.drop_last() == after1);
            assert(after1.drop_last() == after0);
            assert(made.last() == self.exchanges().last());
            assert(made[0] == x0);
            assert(made[1] == x1);
            assert(made[2] == x2);
            assert(made[3] == x3);
        }
        r
    }
}

impl ReaderTraits for Reader {
    /// The UUID of the tag in the field, as it is reported: one exchange of
    /// the inventory command, and the wire UUID in its reply with the byte
    /// pairs reversed.
    fn read_uuid(&mut self) -> (r: Result<String, ReaderError>)
        ensures
            one_more(old(self).exchanges(), final(self).exchanges(), INV_REQ@),
            outcome_of(r) == reported(uuid_read(final(self).exchanges().last())),
            no_pattern_error(outcome_of(r)),
    {
        match self.read_raw_uuid() {
            Ok(raw_uuid) => Ok(reverse_uuid(raw_uuid.as_str())),
            Err(e) => Err(e),
        }
    }

    /// One block of the memory of the tag in the field. The tag's UUID is
    /// read anew for every block.
    fn read_single_block(&mut self, block_idx: u32) -> (r: Result<String, ReaderError>)
        ensures
            old(self).exchanges().is_prefix_of(final(self).exchanges()),
            block_was_read(
                final(self).exchanges().skip(old(self).exchanges().len() as int),
                block_idx,
                outcome_of(r),
            ),
            no_pattern_error(outcome_of(r)),
    {
        proof {
            use_type_invariant(&self.checked);
        }
        let ghost before = self.exchanges();
        let raw_uuid = match self.read_raw_uuid() {
            Ok(raw_uuid) => raw_uuid,
            Err(e) => {
                proof {
                    let made = self.exchanges().skip(before.len() as int);
                    assert(made[0] == self.exchanges().last());
                }
                return Err(e);
            },
        };
        let ghost first = self.exchanges().last();
        let ghost after = self.exchanges();
        let cmd = match single_block_command(raw_uuid.as_str(), block_idx) {
            Ok(cmd) => cmd,
            Err(e) => {
                proof {
                    let made = self.exchanges().skip(before.len() as int);
                    assert(made[0] == first);
                }
                return Err(e);
            },
        };
        let r = match self.exchange(cmd.as_str()) {
            Ok(raw_data) => {
                proof {
                    lemma_accept_of_valid_patterns(raw_data@, seq![SINGLE_BLK_REGEX@]);
                }
                block_in_reply(raw_data.as_str())
            },
            Err(e) => Err(ReaderError::SerialError(e)),
        };
        proof {
            let made = self.exchanges().skip(before.len() as int);
            assert(self.exchanges().drop_last() == after);
            assert(after.drop_last() == before);
            assert(made[0] == first);
            assert(made[1] == self.exchanges().last());
        }
        r
    }

    /// Not supported: the device's command for several blocks is not known.
    /// Nothing is sent, and the call fails with the error of a link that is
    /// not there.
    fn read_multiple_block(&mut self, _block_idx: u32, _num_blocks: u32) -> (r: Result<
        String,
        ReaderError,
    >)
        ensures
            final(self).exchanges() == old(self).exchanges(),
            r == Err::<String, ReaderError>(
                ReaderError::SerialError(SerialError::NoSerialPortsFound),
            ),
    {
        Err(ReaderError::SerialError(SerialError::NoSerialPortsFound))
    }
}

} // verus!
