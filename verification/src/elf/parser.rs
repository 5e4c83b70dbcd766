//! The parse of a whole file: the identity gate, the structural parser of
//! the file's class, and the rows and ranges of the identity block.

use crate::elf::defs::abi_to_string;
use crate::elf::defs::class_known;
use crate::elf::defs::endianness_known;
use crate::elf::defs::ELF_CLASS32;
use crate::elf::defs::ELF_CLASS64;
use crate::elf::defs::ELF_DATA2LSB;
use crate::elf::defs::ELF_DATA2MSB;
use crate::elf::defs::ELF_EI_CLASS;
use crate::elf::defs::ELF_EI_NIDENT;
use crate::elf::defs::ELF_EV_CURRENT;
use crate::elf::defs::ELF_MAGIC;
use crate::elf::defs::ELF_OSABI_SYSV;
use crate::elf::error::ParseError;
use crate::elf::error::ParseFailure;
use crate::elf::ident::gate_failure;
use crate::elf::ident::ident_of;
use crate::elf::ident::IdentView;
pub use crate::elf::ident::ParsedIdent;
use crate::elf::range_type::RangeKind;
pub use crate::elf::range_type::RangeType;
use crate::elf::ranges::count_ends;
use crate::elf::ranges::count_opens;
use crate::elf::ranges::empty_slots;
use crate::elf::ranges::lemma_register_all_concat;
use crate::elf::ranges::lemma_register_next;
use crate::elf::ranges::lemma_registered_markers;
use crate::elf::ranges::register;
use crate::elf::ranges::register_all;
use crate::elf::ranges::spans_valid;
use crate::elf::ranges::well_nested;
pub use crate::elf::ranges::Ranges;
use crate::elf::ranges::Span;
use crate::elf::rows::ident_failure;
use crate::elf::rows::ident_rows;
pub use crate::elf::rows::InfoRow;
use crate::elf::rows::RowView;
use crate::elf::text::decimal_string;
use vstd::prelude::*;
use vstd::string::StringExecFns;

verus! {

/// The ranges of the identity block: the block as a whole, then its fields
/// from first to last.
pub open spec fn ident_spans() -> Seq<Span> {
    seq![
        Span { start: 0, length: 16, kind: RangeKind::Ident },
        Span { start: 0, length: 4, kind: RangeKind::HeaderDetail("magic"@) },
        Span { start: 4, length: 1, kind: RangeKind::HeaderDetail("class"@) },
        Span { start: 5, length: 1, kind: RangeKind::HeaderDetail("data"@) },
        Span { start: 6, length: 1, kind: RangeKind::HeaderDetail("ver"@) },
        Span { start: 7, length: 1, kind: RangeKind::HeaderDetail("abi"@) },
        Span { start: 8, length: 1, kind: RangeKind::HeaderDetail("abi_ver"@) },
        Span { start: 9, length: 7, kind: RangeKind::HeaderDetail("pad"@) },
    ]
}

/// The markers that the ranges of the identity block put at `offset`, in
/// their order.
pub open spec fn ident_markers(offset: int) -> Seq<RangeKind> {
    if offset == 0 {
        seq![RangeKind::Ident, RangeKind::HeaderDetail("magic"@)]
    } else if offset == 3 {
        seq![RangeKind::End]
    } else if offset == 4 {
        seq![RangeKind::HeaderDetail("class"@), RangeKind::End]
    } else if offset == 5 {
        seq![RangeKind::HeaderDetail("data"@), RangeKind::End]
    } else if offset == 6 {
        seq![RangeKind::HeaderDetail("ver"@), RangeKind::End]
    } else if offset == 7 {
        seq![RangeKind::HeaderDetail("abi"@), RangeKind::End]
    } else if offset == 8 {
        seq![RangeKind::HeaderDetail("abi_ver"@), RangeKind::End]
    } else if offset == 9 {
        seq![RangeKind::HeaderDetail("pad"@)]
    } else if offset == 15 {
        seq![RangeKind::End, RangeKind::End]
    } else {
        Seq::empty()
    }
}

/// The ranges of the identity block lie inside any store of sixteen slots
/// or more, and none opens with a closing marker.
pub proof fn lemma_ident_spans_valid(capacity: nat)
    requires
        capacity >= ELF_EI_NIDENT,
    ensures
        spans_valid(capacity, ident_spans()),
{
}

/// The ranges of the identity block can be rendered by counting closing
/// markers: the block covers each of its fields and was registered before
/// them, and no two fields share a byte.
pub proof fn lemma_ident_spans_nested()
    ensures
        well_nested(ident_spans()),
{
}

/// Registering the ranges of the identity block appends, at each offset,
/// the markers of that offset behind those that were there: the identity
/// ranges are the last in every slot they touch.
pub proof fn lemma_ident_markers(slots: Seq<Seq<RangeKind>>)
    requires
        slots.len() >= ELF_EI_NIDENT,
    ensures
        register_all(slots, ident_spans()) == Seq::new(
            slots.len(),
            |offset: int| slots[offset] + ident_markers(offset),
        ),
{
    lemma_ident_steps(slots);
    assert(ident_step(slots, 8) =~~= Seq::new(
        slots.len(),
        |offset: int| slots[offset] + ident_markers(offset),
    ));
}

/// The slots once the first `done` ranges of the identity block are
/// registered.
pub open spec fn ident_step(slots: Seq<Seq<RangeKind>>, done: int) -> Seq<Seq<RangeKind>> {
    register_all(slots, ident_spans().take(done))
}

/// Registering the ranges of the identity block is registering the block,
/// then its seven fields, each on what the one before left.
pub proof fn lemma_ident_steps(slots: Seq<Seq<RangeKind>>)
    ensures
        ident_step(slots, 0) == slots,
        ident_step(slots, 1) == register(ident_step(slots, 0), 0, 16, RangeKind::Ident),
        ident_step(slots, 2) == register(
            ident_step(slots, 1),
            0,
            4,
            RangeKind::HeaderDetail("magic"@),
        ),
        ident_step(slots, 3) == register(
            ident_step(slots, 2),
            4,
            1,
            RangeKind::HeaderDetail("class"@),
        ),
        ident_step(slots, 4) == register(
            ident_step(slots, 3),
            5,
            1,
            RangeKind::HeaderDetail("data"@),
        ),
        ident_step(slots, 5) == register(
            ident_step(slots, 4),
            6,
            1,
            RangeKind::HeaderDetail("ver"@),
        ),
        ident_step(slots, 6) == register(
            ident_step(slots, 5),
            7,
            1,
            RangeKind::HeaderDetail("abi"@),
        ),
        ident_step(slots, 7) == register(
            ident_step(slots, 6),
            8,
            1,
            RangeKind::HeaderDetail("abi_ver"@),
        ),
        ident_step(slots, 8) == register(
            ident_step(slots, 7),
            9,
            7,
            RangeKind::HeaderDetail("pad"@),
        ),
        ident_step(slots, 8) == register_all(slots, ident_spans()),
{
    let spans = ident_spans();
    lemma_register_next(slots, spans, 0);
    lemma_register_next(slots, spans, 1);
    lemma_register_next(slots, spans, 2);
    lemma_register_next(slots, spans, 3);
    lemma_register_next(slots, spans, 4);
    lemma_register_next(slots, spans, 5);
    lemma_register_next(slots, spans, 6);
    lemma_register_next(slots, spans, 7);
    assert(spans.take(8) =~= spans);
}

/// The parser of what follows the identity block in a file of class
/// `CLASS`: the file header and the tables it points to.
///
/// `parse` is handed the whole file, its identity record, and the rows and
/// the store of ranges to add to, both still empty.  It is called only on a
/// buffer that has passed the identity gate and whose class is `CLASS`.  It
/// registers its ranges with `Ranges::add_range`, keeps the store as long
/// as the file, and returns its own message where it gives up.  Nothing is
/// taken on trust of what it hands back.
pub trait StructuralParser<const CLASS: u8> {
    fn parse(
        &self,
        buf: &Vec<u8>,
        ident: &ParsedIdent,
        information: &mut Vec<InfoRow>,
        ranges: &mut Ranges,
    ) -> (r: Result<(), String>)
        requires
            gate_failure(buf@) is None,
            ident@ == ident_of(buf@),
            ident@.class == CLASS,
            old(information)@.len() == 0,
            old(ranges)@ == empty_slots(buf@.len()),
    ;
}

/// What is said of a structural parser that hands back a store of another
/// size than the file.
pub const STORE_RESIZED: &'static str = "structural parser changed the size of the range store";

/// What a successful parse hands out.
pub struct ParsedElf {
    /// The name under which the file was given.
    pub filename: String,
    /// The rows that describe the file, in the order in which they were
    /// found.
    pub information: Vec<InfoRow>,
    /// The bytes of the file.
    pub contents: Vec<u8>,
    /// For each byte of `contents`, the ranges that begin and end there.
    pub ranges: Ranges,
}

/// The mathematical value of a `ParsedElf`.
pub struct ElfView {
    pub filename: Seq<char>,
    pub information: Seq<RowView>,
    pub contents: Seq<u8>,
    pub ranges: Seq<Seq<RangeKind>>,
}

impl View for ParsedElf {
    type V = ElfView;

    open spec fn view(&self) -> ElfView {
        ElfView {
            filename: self.filename@,
            information: self.information.deep_view(),
            contents: self.contents@,
            ranges: self.ranges@,
        }
    }
}

/// The mathematical value of what a parse returns.
pub open spec fn outcome_of(r: Result<ParsedElf, ParseError>) -> Result<ElfView, ParseFailure> {
    match r {
        Ok(parsed) => Ok(parsed@),
        Err(e) => Err(e@),
    }
}

/// The mathematical value of what a structural parser returns.
pub open spec fn verdict_of(verdict: Result<(), String>) -> Result<(), Seq<char>> {
    match verdict {
        Ok(()) => Ok(()),
        Err(message) => Err(message@),
    }
}

/// What a parse comes to once the structural parser has returned `verdict`
/// and left `rows` and `slots` behind.  Its failure is the parse's; so is a
/// store that is no longer as long as the file.  Then the identity record
/// is summed up: an unknown class or byte order fails the parse, else its
/// rows and ranges come last.
pub open spec fn assembled(
    filename: Seq<char>,
    bytes: Seq<u8>,
    ident: IdentView,
    verdict: Result<(), Seq<char>>,
    rows: Seq<RowView>,
    slots: Seq<Seq<RangeKind>>,
) -> Result<ElfView, ParseFailure> {
    match verdict {
        Err(message) => Err(ParseFailure::StructuralParseFailed(message)),
        Ok(()) => if slots.len() != bytes.len() {
            Err(ParseFailure::StructuralParseFailed(STORE_RESIZED@))
        } else {
            match ident_failure(ident) {
                Some(failure) => Err(failure),
                None => Ok(
                    ElfView {
                        filename,
                        information: rows + ident_rows(ident),
                        contents: bytes,
                        ranges: register_all(slots, ident_spans()),
                    },
                ),
            }
        },
    }
}

/// Whether `whole` ends with `tail`.
pub open spec fn ends_with<T>(whole: Seq<T>, tail: Seq<T>) -> bool {
    tail.len() <= whole.len() && whole.subrange(whole.len() - tail.len(), whole.len() as int)
        == tail
}

/// Whatever the structural parser returned and left behind: a parse that
/// succeeds hands out the file's name and bytes and a store as long as the
/// file, with the parser's rows first and the identity rows last, and with
/// the markers of the identity block last in every slot; one that fails
/// does so for the parser's sake or for the identity record's.
pub proof fn lemma_assembled(
    filename: Seq<char>,
    bytes: Seq<u8>,
    ident: IdentView,
    verdict: Result<(), Seq<char>>,
    rows: Seq<RowView>,
    slots: Seq<Seq<RangeKind>>,
)
    requires
        bytes.len() >= ELF_EI_NIDENT,
    ensures
        match assembled(filename, bytes, ident, verdict, rows, slots) {
            Ok(elf) => {
                &&& verdict is Ok
                &&& ident_failure(ident) is None
                &&& elf.filename == filename
                &&& elf.contents == bytes
                &&& elf.ranges.len() == bytes.len()
                &&& elf.information.subrange(0, rows.len() as int) == rows
                &&& ends_with(elf.information, ident_rows(ident))
                &&& forall|offset: int|
                    #![trigger elf.ranges[offset]]
                    0 <= offset < bytes.len() ==> {
                        &&& elf.ranges[offset].subrange(0, slots[offset].len() as int)
                            == slots[offset]
                        &&& ends_with(elf.ranges[offset], ident_markers(offset))
                    }
            },
            Err(failure) => {
                ||| failure is StructuralParseFailed
                ||| ident_failure(ident) == Some(failure)
            },
        },
{
    if verdict is Ok && slots.len() == bytes.len() && ident_failure(ident) is None {
        let elf = assembled(filename, bytes, ident, verdict, rows, slots)->Ok_0;
        let tail = ident_rows(ident);
        lemma_ident_markers(slots);
        assert(elf.information.subrange(0, rows.len() as int) =~= rows);
        assert(elf.information.subrange(rows.len() as int, elf.information.len() as int)
            =~= tail);
        assert forall|offset: int| 0 <= offset < bytes.len() implies {
            &&& (#[trigger] elf.ranges[offset]).subrange(0, slots[offset].len() as int)
                == slots[offset]
            &&& ends_with(elf.ranges[offset], ident_markers(offset))
        } by {
            let head = slots[offset];
            let slot = elf.ranges[offset];
            assert(slot == head + ident_markers(offset));
            assert(slot.subrange(0, head.len() as int) =~= head);
            assert(slot.subrange(head.len() as int, slot.len() as int) =~= ident_markers(offset));
        }
    }
}

/// Every range registered during a parse has its opening marker at its
/// first byte and exactly one closing marker at its last byte.  Where the
/// structural parser registered `spans` in a fresh store, the parse's store
/// holds at each offset as many closing markers as there are ranges, the
/// parser's and the identity block's, that end there, and as many opening
/// markers as there are ranges that start there.
pub proof fn lemma_parse_markers(capacity: nat, spans: Seq<Span>, offset: int)
    requires
        capacity >= ELF_EI_NIDENT,
        spans_valid(capacity, spans),
        0 <= offset < capacity,
    ensures
        register_all(register_all(empty_slots(capacity), spans), ident_spans()) == register_all(
            empty_slots(capacity),
            spans + ident_spans(),
        ),
        count_ends(register_all(empty_slots(capacity), spans + ident_spans())[offset]) == (spans
            + ident_spans()).filter(|span: Span| span.last() == offset).len(),
        count_opens(register_all(empty_slots(capacity), spans + ident_spans())[offset]) == (spans
            + ident_spans()).filter(|span: Span| span.start == offset).len(),
{
    let all = spans + ident_spans();
    lemma_register_all_concat(empty_slots(capacity), spans, ident_spans());
    lemma_ident_spans_valid(capacity);
    assert(spans_valid(capacity, all));
    lemma_registered_markers(empty_slots(capacity), all, offset);
    reveal(Seq::filter);
    assert(count_ends(empty_slots(capacity)[offset]) == 0);
    assert(count_opens(empty_slots(capacity)[offset]) == 0);
}

impl ParsedElf {
    /// Whether the store of ranges has one slot for each byte of the file.
    pub open spec fn wf(&self) -> bool {
        self.ranges@.len() == self.contents@.len()
    }

    /// Parses a file.  The buffer passes the identity gate or the parse
    /// fails there; then the structural parser of the file's class runs,
    /// `elf32` or `elf64`; then the identity record is summed up.
    ///
    /// Where the identity block is in order, that parser is called on the whole
    /// buffer, the identity record read from it, no rows and an empty store
    /// with one slot for each byte.  The result is `assembled` applied to
    /// the verdict of that call and to the rows and the store it left.
    pub fn from_bytes<P32: StructuralParser<ELF_CLASS32>, P64: StructuralParser<ELF_CLASS64>>(
        filename: &String,
        buf: Vec<u8>,
        elf32: &P32,
        elf64: &P64,
    ) -> (r: Result<ParsedElf, ParseError>)
        ensures
            buf@.len() < ELF_EI_NIDENT ==> (r matches Err(e) && e@ == ParseFailure::TooSmall),
            buf@.len() >= ELF_EI_NIDENT && buf@.subrange(0, 4) != ELF_MAGIC@ ==> (r matches Err(e)
                && e@ == ParseFailure::BadMagic),
            buf@.len() >= ELF_EI_NIDENT && buf@.subrange(0, 4) == ELF_MAGIC@ && !class_known(
                buf@[ELF_EI_CLASS as int],
            ) ==> (r matches Err(e) && e@ == ParseFailure::UnknownClass(
                buf@[ELF_EI_CLASS as int],
            )),
            gate_failure(buf@) is None && ident_of(buf@).class == ELF_CLASS32 ==> exists|
                ident: ParsedIdent,
                information: &mut Vec<InfoRow>,
                ranges: &mut Ranges,
                verdict: Result<(), String>,
            |
                {
                    &&& ident@ == ident_of(buf@)
                    &&& information@.len() == 0
                    &&& ranges@ == empty_slots(buf@.len())
                    &&& #[trigger] call_ensures(
                        P32::parse,
                        (elf32, &buf, &ident, information, ranges),
                        verdict,
                    )
                    &&& outcome_of(r) == assembled(
                        filename@,
                        buf@,
                        ident_of(buf@),
                        verdict_of(verdict),
                        final(information).deep_view(),
                        final(ranges)@,
                    )
                },
            gate_failure(buf@) is None && ident_of(buf@).class == ELF_CLASS64 ==> exists|
                ident: ParsedIdent,
                information: &mut Vec<InfoRow>,
                ranges: &mut Ranges,
                verdict: Result<(), String>,
            |
                {
                    &&& ident@ == ident_of(buf@)
                    &&& information@.len() == 0
                    &&& ranges@ == empty_slots(buf@.len())
                    &&& #[trigger] call_ensures(
                        P64::parse,
                        (elf64, &buf, &ident, information, ranges),
                        verdict,
                    )
                    &&& outcome_of(r) == assembled(
                        filename@,
                        buf@,
                        ident_of(buf@),
                        verdict_of(verdict),
                        final(information).deep_view(),
                        final(ranges)@,
                    )
                },
            r matches Ok(parsed) ==> {
                &&& parsed.wf()
                &&& parsed.filename@ == filename@
                &&& parsed.contents@ == buf@
                &&& gate_failure(buf@) is None
                &&& endianness_known(ident_of(buf@).endianness)
                &&& ends_with(parsed.information.deep_view(), ident_rows(ident_of(buf@)))
                &&& forall|offset: int|
                    0 <= offset < buf@.len() ==> ends_with(
                        #[trigger] parsed.ranges@[offset],
                        ident_markers(offset),
                    )
            },
            r matches Err(e) ==> {
                ||| gate_failure(buf@) == Some(e@)
                ||| e@ is StructuralParseFailed
                ||| e@ == ParseFailure::UnknownEndianness(ident_of(buf@).endianness)
                    && !endianness_known(ident_of(buf@).endianness)
            },
    {
        let ident = match ParsedIdent::parse(&buf) {
            Ok(ident) => ident,
            Err(e) => {
                return Err(e);
            },
        };
        let mut ranges = Ranges::new(buf.len());
        let mut information: Vec<InfoRow> = Vec::new();
        let verdict = if ident.class == ELF_CLASS32 {
            elf32.parse(&buf, &ident, &mut information, &mut ranges)
        } else {
            elf64.parse(&buf, &ident, &mut information, &mut ranges)
        };
        let ghost rows = information.deep_view();
        let ghost slots = ranges@;
        let r = ParsedElf::assemble(filename, buf, &ident, verdict, information, ranges);
        proof {
            lemma_assembled(filename@, buf@, ident_of(buf@), verdict_of(verdict), rows, slots);
        }
        assert(outcome_of(r) == assembled(
            filename@,
            buf@,
            ident_of(buf@),
            verdict_of(verdict),
            rows,
            slots,
        ));
        r
    }

    /// Ends a parse: takes what the structural parser returned and left
    /// behind, and sums up the identity record.
    pub fn assemble(
        filename: &String,
        buf: Vec<u8>,
        ident: &ParsedIdent,
        verdict: Result<(), String>,
        information: Vec<InfoRow>,
        ranges: Ranges,
    ) -> (r: Result<ParsedElf, ParseError>)
        requires
            buf@.len() >= ELF_EI_NIDENT,
        ensures
            outcome_of(r) == assembled(
                filename@,
                buf@,
                ident@,
                verdict_of(verdict),
                information.deep_view(),
                ranges@,
            ),
    {
        let mut information = information;
        let mut ranges = ranges;
        match verdict {
            Ok(()) => {},
            Err(message) => {
                return Err(ParseError::StructuralParseFailed(message));
            },
        }
        if ranges.data.len() != buf.len() {
            return Err(ParseError::StructuralParseFailed(String::from_str(STORE_RESIZED)));
        }
        match ParsedElf::parse_ident(ident, &mut information, &mut ranges) {
            Ok(()) => {},
            Err(e) => {
                return Err(e);
            },
        }
        Ok(ParsedElf { filename: filename.clone(), information, contents: buf, ranges })
    }

    /// Adds what the identity record contributes: its rows, then the ranges
    /// of the identity block.  Where the record yields no rows, neither
    /// rows nor ranges are added.
    pub fn parse_ident(
        ident: &ParsedIdent,
        information: &mut Vec<InfoRow>,
        ranges: &mut Ranges,
    ) -> (r: Result<(), ParseError>)
        requires
            old(ranges)@.len() >= ELF_EI_NIDENT,
        ensures
            match r {
                Ok(()) => {
                    &&& ident_failure(ident@) is None
                    &&& final(information).deep_view() == old(information).deep_view()
                        + ident_rows(ident@)
                    &&& final(ranges)@ == register_all(old(ranges)@, ident_spans())
                },
                Err(e) => {
                    &&& ident_failure(ident@) == Some(e@)
                    &&& *final(information) == *old(information)
                    &&& *final(ranges) == *old(ranges)
                },
            },
    {
        match ParsedElf::push_ident_info(ident, information) {
            Ok(()) => {},
            Err(e) => {
                return Err(e);
            },
        }
        ParsedElf::add_ident_ranges(ranges);
        Ok(())
    }

    /// Appends the rows of the identity record to `information`.  Where the
    /// record has an unknown class or byte order nothing is appended.
    pub fn push_ident_info(ident: &ParsedIdent, information: &mut Vec<InfoRow>) -> (r: Result<
        (),
        ParseError,
    >)
        ensures
            match r {
                Ok(()) => {
                    &&& ident_failure(ident@) is None
                    &&& final(information).deep_view() == old(information).deep_view()
                        + ident_rows(ident@)
                },
                Err(e) => {
                    &&& ident_failure(ident@) == Some(e@)
                    &&& *final(information) == *old(information)
                },
            },
    {
        let class = if ident.class == ELF_CLASS32 {
            String::from_str("32-bit")
        } else if ident.class == ELF_CLASS64 {
            String::from_str("64-bit")
        } else {
            return Err(ParseError::UnknownClass(ident.class));
        };
        let data = if ident.endianness == ELF_DATA2LSB {
            String::from_str("Little endian")
        } else if ident.endianness == ELF_DATA2MSB {
            String::from_str("Big endian")
        } else {
            return Err(ParseError::UnknownEndianness(ident.endianness));
        };
        information.push(
            InfoRow { id: "class", label: "Object class", value: class, anomalous: false },
        );
        information.push(
            InfoRow { id: "data", label: "Data encoding", value: data, anomalous: false },
        );
        if ident.version != ELF_EV_CURRENT {
            information.push(
                InfoRow {
                    id: "ver",
                    label: "Uncommon version(!)",
                    value: decimal_string(ident.version),
                    anomalous: true,
                },
            );
        }
        let standard = ident.abi == ELF_OSABI_SYSV;
        information.push(
            InfoRow {
                id: "abi",
                label: if standard {
                    "ABI"
                } else {
                    "Uncommon ABI(!)"
                },
                value: abi_to_string(ident.abi),
                anomalous: !standard,
            },
        );
        if !(standard && ident.abi_ver == 0) {
            let unexpected = standard && ident.abi_ver != 0;
            information.push(
                InfoRow {
                    id: "abi_ver",
                    label: if unexpected {
                        "Uncommon ABI version(!)"
                    } else {
                        "ABI version"
                    },
                    value: decimal_string(ident.abi_ver),
                    anomalous: unexpected,
                },
            );
        }
        assert(information.deep_view() =~= old(information).deep_view() + ident_rows(ident@));
        Ok(())
    }

    /// Registers the ranges of the identity block: the block as a whole,
    /// then each of its fields.
    pub fn add_ident_ranges(ranges: &mut Ranges)
        requires
            old(ranges)@.len() >= ELF_EI_NIDENT,
        ensures
            final(ranges)@ == register_all(old(ranges)@, ident_spans()),
    {
        proof {
            lemma_ident_steps(ranges@);
        }
        let _ = ranges.add_range(0, ELF_EI_NIDENT, RangeType::Ident);
        let _ = ranges.add_range(0, 4, RangeType::HeaderDetail("magic"));
        let _ = ranges.add_range(4, 1, RangeType::HeaderDetail("class"));
        let _ = ranges.add_range(5, 1, RangeType::HeaderDetail("data"));
        let _ = ranges.add_range(6, 1, RangeType::HeaderDetail("ver"));
        let _ = ranges.add_range(7, 1, RangeType::HeaderDetail("abi"));
        let _ = ranges.add_range(8, 1, RangeType::HeaderDetail("abi_ver"));
        let _ = ranges.add_range(9, 7, RangeType::HeaderDetail("pad"));
    }
}

} // verus!
