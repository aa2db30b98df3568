//! How far a transfer has come, and what the progress display is told.

use indicatif::ProgressStyle;
use vstd::prelude::*;

verus! {

/// The position of the progress display after `length` more bytes: the sum,
/// but never more than the size that was announced.
pub open spec fn advanced(total: u64, position: u64, length: nat) -> u64 {
    if position + length >= total {
        total
    } else {
        (position + length) as u64
    }
}

/// Advances the position of the progress display by the length of a chunk.
pub fn advance(total: u64, position: u64, length: usize) -> (next: u64)
    ensures
        next == advanced(total, position, length as nat),
        next <= total,
        position <= total ==> position <= next,
{
    let room: u64 = if position < total {
        total - position
    } else {
        0
    };
    if length as u64 >= room {
        total
    } else {
        position + length as u64
    }
}

/// The message that the display shows while the file `name` is fetched.
pub open spec fn downloading(name: Seq<char>) -> Seq<char> {
    "Downloading "@ + name
}

/// The message that the display shows when the file `name` is complete.
pub open spec fn downloaded(name: Seq<char>) -> Seq<char> {
    "Downloaded "@ + name
}

/// The message that the display shows while the file `name` is fetched.
pub fn downloading_message(name: &str) -> (message: String)
    ensures
        message@ == downloading(name@),
{
    let mut message = String::from_str("Downloading ");
    message.append(name);
    message
}

/// The message that the display shows when the file `name` is complete.
pub fn downloaded_message(name: &str) -> (message: String)
    ensures
        message@ == downloaded(name@),
{
    let mut message = String::from_str("Downloaded ");
    message.append(name);
    message
}

/// What the progress display is told.
pub enum Report {
    /// A bar for `total` bytes appears, in `style`, under `message`.
    Begin { total: u64, style: ProgressStyle, message: String },
    /// The bar moves to `position`.
    Position { position: u64 },
    /// The bar is complete and shows `message`.
    Finish { message: String },
}

/// A `Report` as specifications see it.
pub enum ReportView {
    Begin { total: u64, message: Seq<char> },
    Position { position: u64 },
    Finish { message: Seq<char> },
}

impl View for Report {
    type V = ReportView;

    open spec fn view(&self) -> ReportView {
        match *self {
            Report::Begin { total, style, message } => ReportView::Begin {
                total,
                message: message@,
            },
            Report::Position { position } => ReportView::Position { position },
            Report::Finish { message } => ReportView::Finish { message: message@ },
        }
    }
}

} // verus!
