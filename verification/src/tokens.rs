//! The token tables: each closed enumeration maps to one canonical short
//! symbolic token.
//!
//! Every `to_token` is a total function — an exhaustive match, so adding a
//! variant forces a new table entry — and within each enumeration no two
//! variants share a token, as the injectivity lemmas prove.

use vstd::prelude::*;

verus! {

/// Kind of the annotation to produce.
#[derive(Debug, Clone, Copy, PartialEq, Eq, Structural, Hash)]
pub enum AnnotationType {
    /// Inline text.
    Text,
    /// A link.
    Link,
    /// A line.
    Line,
    /// A square.
    Square,
    /// A circle.
    Circle,
    /// Highlighting the text on the page.
    Highlight,
    /// Underline the text on the page.
    Underline,
    /// Squiggly underline of the text on the page.
    Squiggly,
    /// Strike out the text on the page.
    StrikeOut,
    /// A reference to another file.
    FileAttachment,
}

impl AnnotationType {
    /// The canonical token of this variant.
    pub open spec fn token(self) -> Seq<char> {
        match self {
            AnnotationType::Text => "Text"@,
            AnnotationType::Link => "Link"@,
            AnnotationType::Line => "Line"@,
            AnnotationType::Square => "Square"@,
            AnnotationType::Circle => "Circle"@,
            AnnotationType::Highlight => "Highlight"@,
            AnnotationType::Underline => "Underline"@,
            AnnotationType::Squiggly => "Squiggly"@,
            AnnotationType::StrikeOut => "StrikeOut"@,
            AnnotationType::FileAttachment => "FileAttachment"@,
        }
    }

    /// Writes this variant as its canonical token.
    pub fn to_token(self) -> (token: &'static str)
        ensures
            token@ == self.token(),
    {
        match self {
            AnnotationType::Text => "Text",
            AnnotationType::Link => "Link",
            AnnotationType::Line => "Line",
            AnnotationType::Square => "Square",
            AnnotationType::Circle => "Circle",
            AnnotationType::Highlight => "Highlight",
            AnnotationType::Underline => "Underline",
            AnnotationType::Squiggly => "Squiggly",
            AnnotationType::StrikeOut => "StrikeOut",
            AnnotationType::FileAttachment => "FileAttachment",
        }
    }
}

/// Law: within the annotation-kind table, distinct variants keep distinct
/// tokens.
pub proof fn lemma_annotation_type_token_injective(a: AnnotationType, b: AnnotationType)
    ensures
        a.token() == b.token() ==> a == b,
{
    reveal_strlit("Text");
    reveal_strlit("Link");
    reveal_strlit("Line");
    reveal_strlit("Square");
    reveal_strlit("Circle");
    reveal_strlit("Highlight");
    reveal_strlit("Underline");
    reveal_strlit("Squiggly");
    reveal_strlit("StrikeOut");
    reveal_strlit("FileAttachment");
    assert("Text"@[0] == 'T');
    assert("Link"@[0] == 'L');
    assert("Line"@[0] == 'L');
    assert("Square"@[0] == 'S');
    assert("Circle"@[0] == 'C');
    assert("Highlight"@[0] == 'H');
    assert("Underline"@[0] == 'U');
    assert("Squiggly"@[0] == 'S');
    assert("StrikeOut"@[0] == 'S');
    assert("FileAttachment"@[0] == 'F');
    assert("Link"@[3] == 'k' && "Line"@[3] == 'e');
    assert("Square"@.len() == 6 && "Squiggly"@.len() == 8 && "StrikeOut"@.len() == 9);
}

/// Possible icons for an annotation.
#[derive(Debug, Clone, Copy, PartialEq, Eq, Structural, Hash)]
pub enum AnnotationIcon {
    /// Speech bubble. For use with text annotations.
    Comment,
    /// For use with text annotations.
    Key,
    /// Sticky note. For use with text annotations.
    Note,
    /// Question mark or manual. For use with text annotations.
    Help,
    /// For use with text annotations.
    NewParagraph,
    /// For use with text annotations.
    Paragraph,
    /// A plus or similar. For use with text annotations.
    Insert,
    /// Chart. For use with file attachment annotations.
    Graph,
    /// For use with file attachment annotations.
    PushPin,
    /// For use with file attachment annotations.
    Paperclip,
    /// For use with file attachment annotations.
    Tag,
}

impl AnnotationIcon {
    /// The canonical token of this variant.
    pub open spec fn token(self) -> Seq<char> {
        match self {
            AnnotationIcon::Comment => "Comment"@,
            AnnotationIcon::Key => "Key"@,
            AnnotationIcon::Note => "Note"@,
            AnnotationIcon::Help => "Help"@,
            AnnotationIcon::NewParagraph => "NewParagraph"@,
            AnnotationIcon::Paragraph => "Paragraph"@,
            AnnotationIcon::Insert => "Insert"@,
            AnnotationIcon::Graph => "Graph"@,
            AnnotationIcon::PushPin => "PushPin"@,
            AnnotationIcon::Paperclip => "Paperclip"@,
            AnnotationIcon::Tag => "Tag"@,
        }
    }

    /// Writes this variant as its canonical token.
    pub fn to_token(self) -> (token: &'static str)
        ensures
            token@ == self.token(),
    {
        match self {
            AnnotationIcon::Comment => "Comment",
            AnnotationIcon::Key => "Key",
            AnnotationIcon::Note => "Note",
            AnnotationIcon::Help => "Help",
            AnnotationIcon::NewParagraph => "NewParagraph",
            AnnotationIcon::Paragraph => "Paragraph",
            AnnotationIcon::Insert => "Insert",
            AnnotationIcon::Graph => "Graph",
            AnnotationIcon::PushPin => "PushPin",
            AnnotationIcon::Paperclip => "Paperclip",
            AnnotationIcon::Tag => "Tag",
        }
    }
}

/// Law: within the icon table, distinct variants keep distinct tokens.
pub proof fn lemma_annotation_icon_token_injective(a: AnnotationIcon, b: AnnotationIcon)
    ensures
        a.token() == b.token() ==> a == b,
{
    reveal_strlit("Comment");
    reveal_strlit("Key");
    reveal_strlit("Note");
    reveal_strlit("Help");
    reveal_strlit("NewParagraph");
    reveal_strlit("Paragraph");
    reveal_strlit("Insert");
    reveal_strlit("Graph");
    reveal_strlit("PushPin");
    reveal_strlit("Paperclip");
    reveal_strlit("Tag");
    assert("Comment"@[0] == 'C');
    assert("Key"@[0] == 'K');
    assert("Note"@[0] == 'N');
    assert("Help"@[0] == 'H');
    assert("NewParagraph"@[0] == 'N');
    assert("Paragraph"@[0] == 'P');
    assert("Insert"@[0] == 'I');
    assert("Graph"@[0] == 'G');
    assert("PushPin"@[0] == 'P');
    assert("Paperclip"@[0] == 'P');
    assert("Tag"@[0] == 'T');
    assert("Note"@.len() == 4 && "NewParagraph"@.len() == 12);
    assert("Paragraph"@.len() == 9 && "PushPin"@.len() == 7 && "Paperclip"@.len() == 9);
    assert("Paragraph"@[2] == 'r' && "Paperclip"@[2] == 'p');
}

/// What kind of action to perform when clicking a link annotation.
#[derive(Debug, Clone, Copy, PartialEq, Eq, Structural, Hash)]
pub enum ActionType {
    /// Go to a destination in the document.
    GoTo,
    /// Go to a destination in another document.
    RemoteGoTo,
    /// Launch an application.
    Launch,
    /// Open a URI.
    Uri,
}

impl ActionType {
    /// The canonical token of this variant.
    pub open spec fn token(self) -> Seq<char> {
        match self {
            ActionType::GoTo => "GoTo"@,
            ActionType::RemoteGoTo => "GoToR"@,
            ActionType::Launch => "Launch"@,
            ActionType::Uri => "URI"@,
        }
    }

    /// Writes this variant as its canonical token.
    pub fn to_token(self) -> (token: &'static str)
        ensures
            token@ == self.token(),
    {
        match self {
            ActionType::GoTo => "GoTo",
            ActionType::RemoteGoTo => "GoToR",
            ActionType::Launch => "Launch",
            ActionType::Uri => "URI",
        }
    }
}

/// Law: within the action-kind table, distinct variants keep distinct
/// tokens.
pub proof fn lemma_action_type_token_injective(a: ActionType, b: ActionType)
    ensures
        a.token() == b.token() ==> a == b,
{
    reveal_strlit("GoTo");
    reveal_strlit("GoToR");
    reveal_strlit("Launch");
    reveal_strlit("URI");
    assert("GoTo"@.len() == 4 && "GoToR"@.len() == 5 && "Launch"@.len() == 6 && "URI"@.len()
        == 3);
}

/// Highlighting effect applied while the mouse button is held over some
/// annotations.
#[derive(Debug, Clone, Copy, PartialEq, Eq, Structural, Hash)]
pub enum HighlightEffect {
    /// No effect.
    NoEffect,
    /// Invert the colors inside of the annotation rectangle.
    Invert,
    /// Invert the colors on the annotation border.
    Outline,
    /// Make the annotation rectangle's area appear depressed.
    Push,
}

impl HighlightEffect {
    /// The canonical token of this variant.
    pub open spec fn token(self) -> Seq<char> {
        match self {
            HighlightEffect::NoEffect => "N"@,
            HighlightEffect::Invert => "I"@,
            HighlightEffect::Outline => "O"@,
            HighlightEffect::Push => "P"@,
        }
    }

    /// Writes this variant as its canonical token.
    pub fn to_token(self) -> (token: &'static str)
        ensures
            token@ == self.token(),
    {
        match self {
            HighlightEffect::NoEffect => "N",
            HighlightEffect::Invert => "I",
            HighlightEffect::Outline => "O",
            HighlightEffect::Push => "P",
        }
    }
}

/// Law: within the highlight-effect table, distinct variants keep distinct
/// tokens.
pub proof fn lemma_highlight_effect_token_injective(a: HighlightEffect, b: HighlightEffect)
    ensures
        a.token() == b.token() ==> a == b,
{
    reveal_strlit("N");
    reveal_strlit("I");
    reveal_strlit("O");
    reveal_strlit("P");
    assert("N"@[0] == 'N' && "I"@[0] == 'I' && "O"@[0] == 'O' && "P"@[0] == 'P');
}

/// The kind of line to draw on the border.
#[derive(Debug, Clone, Copy, PartialEq, Eq, Structural, Hash)]
pub enum BorderType {
    /// A solid line.
    Solid,
    /// A dashed line, dash pattern may be specified further elsewhere.
    Dashed,
    /// A line with a 3D effect.
    Beveled,
    /// A line that makes the rectangle appear depressed.
    Inset,
    /// A single line at the bottom of the border rectangle.
    Underline,
}

impl BorderType {
    /// The canonical token of this variant.
    pub open spec fn token(self) -> Seq<char> {
        match self {
            BorderType::Solid => "S"@,
            BorderType::Dashed => "D"@,
            BorderType::Beveled => "B"@,
            BorderType::Inset => "I"@,
            BorderType::Underline => "U"@,
        }
    }

    /// Writes this variant as its canonical token.
    pub fn to_token(self) -> (token: &'static str)
        ensures
            token@ == self.token(),
    {
        match self {
            BorderType::Solid => "S",
            BorderType::Dashed => "D",
            BorderType::Beveled => "B",
            BorderType::Inset => "I",
            BorderType::Underline => "U",
        }
    }
}

/// Law: within the border-kind table, distinct variants keep distinct
/// tokens.
pub proof fn lemma_border_type_token_injective(a: BorderType, b: BorderType)
    ensures
        a.token() == b.token() ==> a == b,
{
    reveal_strlit("S");
    reveal_strlit("D");
    reveal_strlit("B");
    reveal_strlit("I");
    reveal_strlit("U");
    assert("S"@[0] == 'S' && "D"@[0] == 'D' && "B"@[0] == 'B' && "I"@[0] == 'I' && "U"@[0]
        == 'U');
}

} // verus!
