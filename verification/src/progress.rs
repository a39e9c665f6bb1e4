//! Progress of long-running operations.

use crate::format::{
    decimal, format_percent, format_size, percent_text, push_decimal, push_text, size_text,
};
use crate::text::string_of;
use vstd::prelude::*;

verus! {

/// The stages of an operation on an installation.
#[derive(Debug, Clone, Copy, PartialEq, Eq, Structural)]
pub enum ProgressStage {
    /// Establishing the connection.
    Connecting,
    /// Listing files.
    Listing,
    /// Downloading files.
    Downloading,
    /// Analyzing downloaded files.
    Analyzing,
    /// Comparing two installations.
    Comparing,
    /// Synchronizing files between installations.
    Synchronizing,
    /// Checking the cache for existing data.
    CheckingCache,
    /// Updating the cache with new data.
    UpdatingCache,
    /// Cleaning up temporary files.
    CleaningUp,
    /// The operation is done.
    Completed,
}

impl ProgressStage {
    /// The words that name the stage.
    pub open spec fn label_text(self) -> Seq<char> {
        match self {
            ProgressStage::Connecting => "Connecting"@,
            ProgressStage::Listing => "Listing files"@,
            ProgressStage::Downloading => "Downloading"@,
            ProgressStage::Analyzing => "Analyzing"@,
            ProgressStage::Comparing => "Comparing"@,
            ProgressStage::Synchronizing => "Synchronizing"@,
            ProgressStage::CheckingCache => "Checking cache"@,
            ProgressStage::UpdatingCache => "Updating cache"@,
            ProgressStage::CleaningUp => "Cleaning up"@,
            ProgressStage::Completed => "Completed"@,
        }
    }

    /// The words that name the stage.
    pub fn label(&self) -> (text: &'static str)
        ensures
            text@ == self.label_text(),
    {
        match self {
            ProgressStage::Connecting => "Connecting",
            ProgressStage::Listing => "Listing files",
            ProgressStage::Downloading => "Downloading",
            ProgressStage::Analyzing => "Analyzing",
            ProgressStage::Comparing => "Comparing",
            ProgressStage::Synchronizing => "Synchronizing",
            ProgressStage::CheckingCache => "Checking cache",
            ProgressStage::UpdatingCache => "Updating cache",
            ProgressStage::CleaningUp => "Cleaning up",
            ProgressStage::Completed => "Completed",
        }
    }
}

/// One report of progress.
#[derive(Debug, Clone, PartialEq, Eq)]
pub struct ProgressUpdate {
    /// The stage the operation is in.
    pub stage: ProgressStage,
    /// How much is done.
    pub current: u64,
    /// How much there is to do.
    pub total: u64,
    /// What is being worked on.
    pub message: Option<String>,
    /// Bytes transferred per second.
    pub throughput: Option<u64>,
}

impl ProgressUpdate {
    /// A report without message or throughput.
    pub fn new(stage: ProgressStage, current: u64, total: u64) -> (update: Self)
        ensures
            update.stage == stage,
            update.current == current,
            update.total == total,
            update.message is None,
            update.throughput is None,
    {
        ProgressUpdate { stage, current, total, message: None, throughput: None }
    }

    /// A report with a message.
    pub fn with_message(stage: ProgressStage, current: u64, total: u64, message: String) -> (update:
        Self)
        ensures
            update.stage == stage,
            update.current == current,
            update.total == total,
            update.message == Some(message),
            update.throughput is None,
    {
        ProgressUpdate { stage, current, total, message: Some(message), throughput: None }
    }

    /// A report with a throughput.
    pub fn with_throughput(stage: ProgressStage, current: u64, total: u64, throughput: u64) -> (update:
        Self)
        ensures
            update.stage == stage,
            update.current == current,
            update.total == total,
            update.message is None,
            update.throughput == Some(throughput),
    {
        ProgressUpdate { stage, current, total, message: None, throughput: Some(throughput) }
    }

    /// Whether the operation is done: its stage says so, or nothing is left
    /// to do.
    pub fn is_complete(&self) -> (complete: bool)
        ensures
            complete == (self.stage == ProgressStage::Completed || self.current >= self.total),
    {
        self.stage == ProgressStage::Completed || self.current >= self.total
    }
}

/// The words that follow the share of a report: its message after a dash,
/// then its throughput per second in brackets.
pub open spec fn detail_text(message: Option<String>, throughput: Option<u64>) -> Seq<char> {
    (match message {
        Some(m) => seq![' ', '-', ' '] + m@,
        None => Seq::empty(),
    }) + (match throughput {
        Some(t) => seq![' ', '('] + size_text(t) + seq!['/', 's', ')'],
        None => Seq::empty(),
    })
}

impl ProgressUpdate {
    /// The report in one line: the stage, how much is done of how much,
    /// the share in percent, and what else the report carries.
    pub open spec fn display_text(&self) -> Seq<char> {
        self.stage.label_text() + seq![':', ' '] + decimal(self.current as nat) + seq!['/']
            + decimal(self.total as nat) + seq![' ', '('] + percent_text(self.current, self.total)
            + seq!['%', ')'] + detail_text(self.message, self.throughput)
    }

    /// The report in one line.
    pub fn to_text(&self) -> (text: String)
        ensures
            text@ == self.display_text(),
    {
        let mut out: Vec<char> = Vec::new();
        push_text(&mut out, self.stage.label());
        out.push(':');
        out.push(' ');
        push_decimal(self.current as u128, &mut out);
        out.push('/');
        push_decimal(self.total as u128, &mut out);
        out.push(' ');
        out.push('(');
        push_text(&mut out, format_percent(self.current, self.total).as_str());
        out.push('%');
        out.push(')');
        let ghost head = out@;
        assert(head =~= self.stage.label_text() + seq![':', ' '] + decimal(self.current as nat)
            + seq!['/'] + decimal(self.total as nat) + seq![' ', '('] + percent_text(
            self.current,
            self.total,
        ) + seq!['%', ')']);
        match &self.message {
            Some(message) => {
                out.push(' ');
                out.push('-');
                out.push(' ');
                push_text(&mut out, message.as_str());
            },
            None => {},
        }
        let ghost middle = out@;
        assert(middle =~= head + (match self.message {
            Some(m) => seq![' ', '-', ' '] + m@,
            None => Seq::empty(),
        }));
        match self.throughput {
            Some(throughput) => {
                out.push(' ');
                out.push('(');
                push_text(&mut out, format_size(throughput).as_str());
                out.push('/');
                out.push('s');
                out.push(')');
            },
            None => {},
        }
        assert(out@ =~= middle + (match self.throughput {
            Some(t) => seq![' ', '('] + size_text(t) + seq!['/', 's', ')'],
            None => Seq::empty(),
        }));
        assert(out@ =~= self.display_text());
        string_of(&out)
    }
}

/// Whether a report opens a stage that gets a progress bar of its own.
pub open spec fn opens_new_bar(stage: ProgressStage) -> bool {
    stage == ProgressStage::Connecting || stage == ProgressStage::Listing || stage
        == ProgressStage::Downloading || stage == ProgressStage::Analyzing || stage
        == ProgressStage::Comparing || stage == ProgressStage::Synchronizing
}

/// Whether `update` is to be shown on a new progress bar.
pub fn should_create_new_bar(update: &ProgressUpdate) -> (fresh: bool)
    ensures
        fresh == opens_new_bar(update.stage),
{
    match update.stage {
        ProgressStage::Connecting
        | ProgressStage::Listing
        | ProgressStage::Downloading
        | ProgressStage::Analyzing
        | ProgressStage::Comparing
        | ProgressStage::Synchronizing => true,
        _ => false,
    }
}

/// Shows a number of bytes in the largest fitting unit.
pub fn format_bytes(bytes: u64) -> (text: String)
    ensures
        text@ == size_text(bytes),
{
    format_size(bytes)
}

/// Operations that can report progress.
pub trait ProgressAware {
    /// What receives the reports.
    type Reporter;

    /// Sets the receiver of the reports.
    fn set_progress_reporter(&mut self, reporter: Self::Reporter);

    /// Removes the receiver of the reports.
    fn clear_progress_reporter(&mut self);
}

} // verus!
