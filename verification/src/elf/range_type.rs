//! The kinds of annotated byte ranges and how each is presented.

use crate::elf::text::str_eq;
use vstd::prelude::*;
use vstd::string::StringExecFns;

verus! {

/// What a marker in the range store stands for.
#[derive(Clone, Copy, Debug, PartialEq, Eq)]
pub enum RangeType {
    /// Closes a range that was opened at this or an earlier offset.
    End,
    /// Opens the identity block.
    Ident,
    /// Opens the file header.
    FileHeader,
    /// Opens one program header entry.
    ProgramHeader,
    /// Opens a single named field.
    HeaderDetail(&'static str),
}

/// The mathematical value of a `RangeType`: the label is its characters.
pub enum RangeKind {
    End,
    Ident,
    FileHeader,
    ProgramHeader,
    HeaderDetail(Seq<char>),
}

impl View for RangeType {
    type V = RangeKind;

    open spec fn view(&self) -> RangeKind {
        match *self {
            RangeType::End => RangeKind::End,
            RangeType::Ident => RangeKind::Ident,
            RangeType::FileHeader => RangeKind::FileHeader,
            RangeType::ProgramHeader => RangeKind::ProgramHeader,
            RangeType::HeaderDetail(label) => RangeKind::HeaderDetail(label@),
        }
    }
}

impl DeepView for RangeType {
    type V = RangeKind;

    open spec fn deep_view(&self) -> RangeKind {
        self@
    }
}

/// How a range is presented.
#[derive(Clone, Copy, Debug, PartialEq, Eq)]
pub struct RenderDescriptor {
    /// The key by which a rendered span is found again.
    pub identifier: &'static str,
    /// A second classification, where the kind has one.
    pub secondary_class: Option<&'static str>,
    /// Whether the span is highlighted without being asked for.
    pub highlight_by_default: bool,
}

/// The mathematical value of a `RenderDescriptor`.
pub struct RenderView {
    pub identifier: Seq<char>,
    pub secondary_class: Option<Seq<char>>,
    pub highlight_by_default: bool,
}

impl View for RenderDescriptor {
    type V = RenderView;

    open spec fn view(&self) -> RenderView {
        RenderView {
            identifier: self.identifier@,
            secondary_class: match self.secondary_class {
                Some(class) => Some(class@),
                None => None,
            },
            highlight_by_default: self.highlight_by_default,
        }
    }
}

/// The labels of the named fields that are highlighted without being asked
/// for.
pub const HIGHLIGHTED_LABELS: [&'static str; 8] = [
    "magic",
    "ver",
    "abi_ver",
    "pad",
    "e_version",
    "e_flags",
    "e_ehsize",
    "e_shstrndx",
];

/// Whether `label` is one of `HIGHLIGHTED_LABELS`.
pub open spec fn highlighted_label(label: Seq<char>) -> bool {
    exists|i: int|
        0 <= i < HIGHLIGHTED_LABELS@.len() && (#[trigger] HIGHLIGHTED_LABELS@[i])@ == label
}

/// The highlighted labels are these eight and no others.
pub proof fn lemma_highlighted_labels(label: Seq<char>)
    ensures
        highlighted_label(label) <==> {
            ||| label == "magic"@
            ||| label == "ver"@
            ||| label == "abi_ver"@
            ||| label == "pad"@
            ||| label == "e_version"@
            ||| label == "e_flags"@
            ||| label == "e_ehsize"@
            ||| label == "e_shstrndx"@
        },
{
    let table = HIGHLIGHTED_LABELS@;
    assert(table.len() == 8);
    assert(table[0]@ == "magic"@);
    assert(table[1]@ == "ver"@);
    assert(table[2]@ == "abi_ver"@);
    assert(table[3]@ == "pad"@);
    assert(table[4]@ == "e_version"@);
    assert(table[5]@ == "e_flags"@);
    assert(table[6]@ == "e_ehsize"@);
    assert(table[7]@ == "e_shstrndx"@);
}

/// Decides `highlighted_label` by walking the table.
pub fn is_highlighted_label(label: &str) -> (found: bool)
    ensures
        found == highlighted_label(label@),
{
    let mut i: usize = 0;
    while i < HIGHLIGHTED_LABELS.len()
        invariant
            i <= HIGHLIGHTED_LABELS@.len(),
            forall|k: int| 0 <= k < i ==> (#[trigger] HIGHLIGHTED_LABELS@[k])@ != label@,
        decreases HIGHLIGHTED_LABELS@.len() - i,
    {
        if str_eq(HIGHLIGHTED_LABELS[i], label) {
            return true;
        }
        i = i + 1;
    }
    false
}

impl RangeKind {
    /// The identifier under which a range of this kind is rendered; a
    /// closing marker has none.
    pub open spec fn id(self) -> Seq<char> {
        match self {
            RangeKind::End => Seq::empty(),
            RangeKind::Ident => "ident"@,
            RangeKind::FileHeader => "ehdr"@,
            RangeKind::ProgramHeader => "phdr"@,
            RangeKind::HeaderDetail(label) => label,
        }
    }

    /// Whether a range of this kind is highlighted without being asked for.
    pub open spec fn always_highlight(self) -> bool {
        match self {
            RangeKind::ProgramHeader => true,
            RangeKind::HeaderDetail(label) => highlighted_label(label),
            _ => false,
        }
    }

    /// Whether a range of this kind carries a second classification.
    pub open spec fn needs_class(self) -> bool {
        self is ProgramHeader
    }

    /// The second classification; empty where the kind has none.
    pub open spec fn class(self) -> Seq<char> {
        match self {
            RangeKind::ProgramHeader => "program-header"@,
            _ => Seq::empty(),
        }
    }

    /// The descriptor of a range of this kind.
    pub open spec fn descriptor(self) -> RenderView {
        RenderView {
            identifier: self.id(),
            secondary_class: if self.needs_class() {
                Some(self.class())
            } else {
                None
            },
            highlight_by_default: self.always_highlight(),
        }
    }

    /// The attributes of the span that renders a range of this kind.
    pub open spec fn span_attributes(self) -> Seq<char> {
        span_markup(self.descriptor())
    }
}

/// The attribute text of a descriptor: the identifier, then the class list
/// if there is anything to put in it.
pub open spec fn span_markup(descriptor: RenderView) -> Seq<char> {
    match descriptor.secondary_class {
        Some(class) => "id='"@ + descriptor.identifier + "' class='"@ + class + (
        if descriptor.highlight_by_default {
            " hover"@
        } else {
            Seq::empty()
        }) + "'"@,
        None => "id='"@ + descriptor.identifier + "'"@ + (if descriptor.highlight_by_default {
            " class='hover'"@
        } else {
            Seq::empty()
        }),
    }
}

impl RenderDescriptor {
    /// Writes the descriptor as the attributes of a span.
    pub fn markup(&self) -> (text: String)
        ensures
            text@ == span_markup(self@),
    {
        let mut text = String::from_str("id='");
        text.append(self.identifier);
        match self.secondary_class {
            Some(class) => {
                text.append("' class='");
                text.append(class);
                if self.highlight_by_default {
                    text.append(" hover");
                }
                text.append("'");
            },
            None => {
                text.append("'");
                if self.highlight_by_default {
                    text.append(" class='hover'");
                }
            },
        }
        assert(text@ =~= span_markup(self@));
        text
    }
}

impl RangeType {
    /// The identifier under which the range is rendered.
    pub fn id(&self) -> (id: &'static str)
        ensures
            id@ == self@.id(),
    {
        match self {
            RangeType::Ident => "ident",
            RangeType::FileHeader => "ehdr",
            RangeType::ProgramHeader => "phdr",
            RangeType::HeaderDetail(label) => label,
            RangeType::End => {
                proof {
                    reveal_strlit("");
                }
                assert(""@ =~= Seq::<char>::empty());
                ""
            },
        }
    }

    /// Whether the range is highlighted without being asked for.
    pub fn always_highlight(&self) -> (highlight: bool)
        ensures
            highlight == self@.always_highlight(),
    {
        match self {
            RangeType::ProgramHeader => true,
            RangeType::HeaderDetail(label) => is_highlighted_label(label),
            _ => false,
        }
    }

    /// Whether the range carries a second classification.
    pub fn needs_class(&self) -> (needed: bool)
        ensures
            needed == self@.needs_class(),
    {
        match self {
            RangeType::ProgramHeader => true,
            _ => false,
        }
    }

    /// The second classification; empty where the range has none.
    pub fn class(&self) -> (class: &'static str)
        ensures
            class@ == self@.class(),
    {
        match self {
            RangeType::ProgramHeader => "program-header",
            _ => {
                proof {
                    reveal_strlit("");
                }
                assert(""@ =~= Seq::<char>::empty());
                ""
            },
        }
    }

    /// The descriptor of the range.
    pub fn descriptor(&self) -> (descriptor: RenderDescriptor)
        ensures
            descriptor@ == self@.descriptor(),
    {
        RenderDescriptor {
            identifier: self.id(),
            secondary_class: if self.needs_class() {
                Some(self.class())
            } else {
                None
            },
            highlight_by_default: self.always_highlight(),
        }
    }

    /// The attributes of the span that renders the range.
    pub fn span_attributes(&self) -> (text: String)
        ensures
            text@ == self@.span_attributes(),
    {
        self.descriptor().markup()
    }
}

} // verus!
