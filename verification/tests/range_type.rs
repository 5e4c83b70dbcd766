use elf_annotate::elf::range_type::is_highlighted_label;
use elf_annotate::elf::range_type::RangeType;
use elf_annotate::elf::range_type::RenderDescriptor;
use elf_annotate::elf::range_type::HIGHLIGHTED_LABELS;

#[test]
fn id_of_each_kind() {
    assert_eq!(RangeType::End.id(), "");
    assert_eq!(RangeType::Ident.id(), "ident");
    assert_eq!(RangeType::FileHeader.id(), "ehdr");
    assert_eq!(RangeType::ProgramHeader.id(), "phdr");
    assert_eq!(RangeType::HeaderDetail("e_entry").id(), "e_entry");
}

#[test]
fn highlighted_labels_are_the_eight() {
    assert_eq!(
        HIGHLIGHTED_LABELS,
        ["magic", "ver", "abi_ver", "pad", "e_version", "e_flags", "e_ehsize", "e_shstrndx"]
    );
    for label in HIGHLIGHTED_LABELS {
        assert!(is_highlighted_label(label));
        assert!(RangeType::HeaderDetail(label).always_highlight());
    }
}

#[test]
fn other_labels_are_not_highlighted() {
    for label in ["class", "data", "abi", "e_type", "e_entry", "", "magi", "magic "] {
        assert!(!is_highlighted_label(label));
        assert!(!RangeType::HeaderDetail(label).always_highlight());
    }
}

#[test]
fn always_highlight_of_the_plain_kinds() {
    assert!(RangeType::ProgramHeader.always_highlight());
    assert!(!RangeType::End.always_highlight());
    assert!(!RangeType::Ident.always_highlight());
    assert!(!RangeType::FileHeader.always_highlight());
}

#[test]
fn only_program_headers_need_a_class() {
    assert!(RangeType::ProgramHeader.needs_class());
    assert!(!RangeType::End.needs_class());
    assert!(!RangeType::Ident.needs_class());
    assert!(!RangeType::FileHeader.needs_class());
    assert!(!RangeType::HeaderDetail("magic").needs_class());
    assert_eq!(RangeType::ProgramHeader.class(), "program-header");
    assert_eq!(RangeType::End.class(), "");
    assert_eq!(RangeType::Ident.class(), "");
    assert_eq!(RangeType::FileHeader.class(), "");
    assert_eq!(RangeType::HeaderDetail("magic").class(), "");
}

#[test]
fn descriptor_of_each_kind() {
    assert_eq!(
        RangeType::ProgramHeader.descriptor(),
        RenderDescriptor {
            identifier: "phdr",
            secondary_class: Some("program-header"),
            highlight_by_default: true,
        }
    );
    assert_eq!(
        RangeType::Ident.descriptor(),
        RenderDescriptor { identifier: "ident", secondary_class: None, highlight_by_default: false }
    );
    assert_eq!(
        RangeType::FileHeader.descriptor(),
        RenderDescriptor { identifier: "ehdr", secondary_class: None, highlight_by_default: false }
    );
    assert_eq!(
        RangeType::HeaderDetail("pad").descriptor(),
        RenderDescriptor { identifier: "pad", secondary_class: None, highlight_by_default: true }
    );
    assert_eq!(
        RangeType::HeaderDetail("class").descriptor(),
        RenderDescriptor { identifier: "class", secondary_class: None, highlight_by_default: false }
    );
    assert_eq!(
        RangeType::End.descriptor(),
        RenderDescriptor { identifier: "", secondary_class: None, highlight_by_default: false }
    );
}

#[test]
fn span_attributes_of_each_kind() {
    assert_eq!(RangeType::Ident.span_attributes(), "id='ident'");
    assert_eq!(RangeType::FileHeader.span_attributes(), "id='ehdr'");
    assert_eq!(
        RangeType::ProgramHeader.span_attributes(),
        "id='phdr' class='program-header hover'"
    );
    assert_eq!(RangeType::HeaderDetail("magic").span_attributes(), "id='magic' class='hover'");
    assert_eq!(RangeType::HeaderDetail("class").span_attributes(), "id='class'");
    assert_eq!(RangeType::End.span_attributes(), "id=''");
}

#[test]
fn markup_of_a_classified_descriptor_without_highlight() {
    let descriptor = RenderDescriptor {
        identifier: "shdr",
        secondary_class: Some("section-header"),
        highlight_by_default: false,
    };
    assert_eq!(descriptor.markup(), "id='shdr' class='section-header'");
}
