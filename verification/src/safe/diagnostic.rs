//! What a report is made of: blocks of labelled source regions.

use crate::unit::LocalDefId;
use vstd::prelude::*;

verus! {

/// Whether a label marks a cause or gives context.
#[derive(Clone, Copy, Debug, PartialEq, Eq, Structural)]
pub enum LabelStyle {
    Primary,
    Secondary,
}

/// The weight of a block: the leading block is a note, those that follow it
/// are help.
#[derive(Clone, Copy, Debug, PartialEq, Eq, Structural)]
pub enum Severity {
    Note,
    Help,
}

/// A marked region of a source file, with a message.
#[derive(Clone, Debug, PartialEq, Eq)]
pub struct Label {
    pub style: LabelStyle,
    /// Index of the source file in the source map.
    pub file_id: usize,
    /// Offset of the first byte of the region.
    pub start: usize,
    /// Offset one past its last byte.
    pub end: usize,
    pub message: String,
}

/// A label as a value.
pub ghost struct LabelView {
    pub style: LabelStyle,
    pub file_id: usize,
    pub start: usize,
    pub end: usize,
    pub message: Seq<char>,
}

impl View for Label {
    type V = LabelView;

    open spec fn view(&self) -> LabelView {
        LabelView {
            style: self.style,
            file_id: self.file_id,
            start: self.start,
            end: self.end,
            message: self.message@,
        }
    }
}

/// One block of the report: what is to be said of one function.
#[derive(Clone, Debug, PartialEq, Eq)]
pub struct Diagnostic {
    /// The function that the block is about.
    pub owner: LocalDefId,
    pub severity: Severity,
    pub message: String,
    pub labels: Vec<Label>,
    pub notes: Vec<String>,
}

/// A block as a value.
pub ghost struct DiagnosticView {
    pub owner: LocalDefId,
    pub severity: Severity,
    pub message: Seq<char>,
    pub labels: Seq<LabelView>,
    pub notes: Seq<Seq<char>>,
}

impl View for Diagnostic {
    type V = DiagnosticView;

    open spec fn view(&self) -> DiagnosticView {
        DiagnosticView {
            owner: self.owner,
            severity: self.severity,
            message: self.message@,
            labels: self.labels@.map_values(|l: Label| l@),
            notes: self.notes@.map_values(|n: String| n@),
        }
    }
}

} // verus!
