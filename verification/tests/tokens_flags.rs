use annot_writer::flags::AnnotationFlag;
use annot_writer::flags::AnnotationFlags;
use annot_writer::tokens::ActionType;
use annot_writer::tokens::AnnotationIcon;
use annot_writer::tokens::AnnotationType;
use annot_writer::tokens::BorderType;
use annot_writer::tokens::HighlightEffect;

fn assert_all_distinct(tokens: &[&str]) {
    for i in 0..tokens.len() {
        for j in 0..tokens.len() {
            if i != j {
                assert_ne!(tokens[i], tokens[j]);
            }
        }
    }
}

#[test]
fn annotation_type_tokens_exact() {
    assert_eq!(AnnotationType::Text.to_token(), "Text");
    assert_eq!(AnnotationType::Link.to_token(), "Link");
    assert_eq!(AnnotationType::Line.to_token(), "Line");
    assert_eq!(AnnotationType::Square.to_token(), "Square");
    assert_eq!(AnnotationType::Circle.to_token(), "Circle");
    assert_eq!(AnnotationType::Highlight.to_token(), "Highlight");
    assert_eq!(AnnotationType::Underline.to_token(), "Underline");
    assert_eq!(AnnotationType::Squiggly.to_token(), "Squiggly");
    assert_eq!(AnnotationType::StrikeOut.to_token(), "StrikeOut");
    assert_eq!(AnnotationType::FileAttachment.to_token(), "FileAttachment");
}

#[test]
fn annotation_type_tokens_distinct() {
    let tokens = [
        AnnotationType::Text.to_token(),
        AnnotationType::Link.to_token(),
        AnnotationType::Line.to_token(),
        AnnotationType::Square.to_token(),
        AnnotationType::Circle.to_token(),
        AnnotationType::Highlight.to_token(),
        AnnotationType::Underline.to_token(),
        AnnotationType::Squiggly.to_token(),
        AnnotationType::StrikeOut.to_token(),
        AnnotationType::FileAttachment.to_token(),
    ];
    assert_all_distinct(&tokens);
}

#[test]
fn annotation_icon_tokens_exact() {
    assert_eq!(AnnotationIcon::Comment.to_token(), "Comment");
    assert_eq!(AnnotationIcon::Key.to_token(), "Key");
    assert_eq!(AnnotationIcon::Note.to_token(), "Note");
    assert_eq!(AnnotationIcon::Help.to_token(), "Help");
    assert_eq!(AnnotationIcon::NewParagraph.to_token(), "NewParagraph");
    assert_eq!(AnnotationIcon::Paragraph.to_token(), "Paragraph");
    assert_eq!(AnnotationIcon::Insert.to_token(), "Insert");
    assert_eq!(AnnotationIcon::Graph.to_token(), "Graph");
    assert_eq!(AnnotationIcon::PushPin.to_token(), "PushPin");
    assert_eq!(AnnotationIcon::Paperclip.to_token(), "Paperclip");
    assert_eq!(AnnotationIcon::Tag.to_token(), "Tag");
}

#[test]
fn annotation_icon_tokens_distinct() {
    let tokens = [
        AnnotationIcon::Comment.to_token(),
        AnnotationIcon::Key.to_token(),
        AnnotationIcon::Note.to_token(),
        AnnotationIcon::Help.to_token(),
        AnnotationIcon::NewParagraph.to_token(),
        AnnotationIcon::Paragraph.to_token(),
        AnnotationIcon::Insert.to_token(),
        AnnotationIcon::Graph.to_token(),
        AnnotationIcon::PushPin.to_token(),
        AnnotationIcon::Paperclip.to_token(),
        AnnotationIcon::Tag.to_token(),
    ];
    assert_all_distinct(&tokens);
}

#[test]
fn action_type_tokens_exact_and_distinct() {
    assert_eq!(ActionType::GoTo.to_token(), "GoTo");
    assert_eq!(ActionType::RemoteGoTo.to_token(), "GoToR");
    assert_eq!(ActionType::Launch.to_token(), "Launch");
    assert_eq!(ActionType::Uri.to_token(), "URI");
    let tokens = [
        ActionType::GoTo.to_token(),
        ActionType::RemoteGoTo.to_token(),
        ActionType::Launch.to_token(),
        ActionType::Uri.to_token(),
    ];
    assert_all_distinct(&tokens);
}

#[test]
fn highlight_effect_tokens_exact_and_distinct() {
    assert_eq!(HighlightEffect::NoEffect.to_token(), "N");
    assert_eq!(HighlightEffect::Invert.to_token(), "I");
    assert_eq!(HighlightEffect::Outline.to_token(), "O");
    assert_eq!(HighlightEffect::Push.to_token(), "P");
    let tokens = [
        HighlightEffect::NoEffect.to_token(),
        HighlightEffect::Invert.to_token(),
        HighlightEffect::Outline.to_token(),
        HighlightEffect::Push.to_token(),
    ];
    assert_all_distinct(&tokens);
}

#[test]
fn border_type_tokens_exact_and_distinct() {
    assert_eq!(BorderType::Solid.to_token(), "S");
    assert_eq!(BorderType::Dashed.to_token(), "D");
    assert_eq!(BorderType::Beveled.to_token(), "B");
    assert_eq!(BorderType::Inset.to_token(), "I");
    assert_eq!(BorderType::Underline.to_token(), "U");
    let tokens = [
        BorderType::Solid.to_token(),
        BorderType::Dashed.to_token(),
        BorderType::Beveled.to_token(),
        BorderType::Inset.to_token(),
        BorderType::Underline.to_token(),
    ];
    assert_all_distinct(&tokens);
}

#[test]
fn empty_flags_have_no_bits() {
    assert_eq!(AnnotationFlags::empty().bits(), 0);
}

#[test]
fn single_flags_are_powers_of_two_at_their_positions() {
    assert_eq!(AnnotationFlags::single(AnnotationFlag::Invisible).bits(), 1 << 0);
    assert_eq!(AnnotationFlags::single(AnnotationFlag::Hidden).bits(), 1 << 1);
    assert_eq!(AnnotationFlags::single(AnnotationFlag::Print).bits(), 1 << 2);
    assert_eq!(AnnotationFlags::single(AnnotationFlag::NoZoom).bits(), 1 << 3);
    assert_eq!(AnnotationFlags::single(AnnotationFlag::NoRotate).bits(), 1 << 4);
    assert_eq!(AnnotationFlags::single(AnnotationFlag::NoView).bits(), 1 << 5);
    assert_eq!(AnnotationFlags::single(AnnotationFlag::ReadOnly).bits(), 1 << 6);
    assert_eq!(AnnotationFlags::single(AnnotationFlag::Locked).bits(), 1 << 7);
    assert_eq!(AnnotationFlags::single(AnnotationFlag::ToggleNoView).bits(), 1 << 8);
    assert_eq!(AnnotationFlags::single(AnnotationFlag::LockedContents).bits(), 1 << 9);
}

#[test]
fn union_is_bitwise_or() {
    let print = AnnotationFlags::single(AnnotationFlag::Print);
    let hidden = AnnotationFlags::single(AnnotationFlag::Hidden);
    assert_eq!(print.union(hidden).bits(), print.bits() | hidden.bits());
    assert_eq!(print.union(hidden).bits(), 0b110);
    let everything = print.union(hidden).union(AnnotationFlags::single(
        AnnotationFlag::LockedContents,
    ));
    assert_eq!(everything.bits(), 0b10_0000_0110);
    assert_eq!(print.union(print).bits(), print.bits());
    assert_eq!(print.union(AnnotationFlags::empty()).bits(), print.bits());
}

#[test]
fn with_and_contains_follow_the_bits() {
    let flags = AnnotationFlags::empty().with(AnnotationFlag::NoZoom).with(
        AnnotationFlag::ReadOnly,
    );
    assert_eq!(flags.bits(), (1 << 3) | (1 << 6));
    assert!(flags.contains(AnnotationFlag::NoZoom));
    assert!(flags.contains(AnnotationFlag::ReadOnly));
    assert!(!flags.contains(AnnotationFlag::Print));
    assert!(!AnnotationFlags::empty().contains(AnnotationFlag::Invisible));
}
