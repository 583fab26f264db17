//! What the progress display of one item shows, and the labels it uses.
use vstd::prelude::*;

verus! {

/// The display of one item: a spinner until the first progress report with
/// a length, then a bar.
#[derive(Debug, Clone, Copy, PartialEq, Eq, Structural)]
pub enum Indicator {
    Spinner,
    Bar { len: u64, pos: u64 },
}

/// What the display is told to do on a progress report.
#[derive(Debug, Clone, Copy, PartialEq, Eq, Structural)]
pub enum IndicatorUpdate {
    /// Replace the spinner by a bar of this length, already at this position.
    ShowBar { len: u64, pos: u64 },
    /// Move the bar.
    SetPosition(u64),
}

/// How the display ends.
#[derive(Debug, Clone, Copy, PartialEq, Eq, Structural)]
pub enum Finish {
    /// No bar was shown: nothing to restyle.
    NoBar,
    /// Restyle the bar as a success and finish it.
    Success,
    /// Restyle the bar as a failure and finish it.
    Failure,
}

impl Indicator {
    pub fn new() -> (r: Self)
        ensures
            r == Indicator::Spinner,
    {
        Indicator::Spinner
    }

    /// A progress report of `pos` bytes out of `len`. The first one
    /// replaces the spinner by a bar that starts where the report says, not
    /// at zero; later ones move the bar.
    pub fn on_progress(&mut self, len: u64, pos: u64) -> (r: IndicatorUpdate)
        ensures
            *old(self) == Indicator::Spinner ==> r == (IndicatorUpdate::ShowBar { len, pos })
                && *final(self) == (Indicator::Bar { len, pos }),
            *old(self) matches Indicator::Bar { len: l, .. } ==> r == IndicatorUpdate::SetPosition(
                pos,
            ) && *final(self) == (Indicator::Bar { len: l, pos }),
    {
        match *self {
            Indicator::Spinner => {
                *self = Indicator::Bar { len, pos };
                IndicatorUpdate::ShowBar { len, pos }
            },
            Indicator::Bar { len: l, .. } => {
                *self = Indicator::Bar { len: l, pos };
                IndicatorUpdate::SetPosition(pos)
            },
        }
    }

    /// How the display ends, given whether the download succeeded.
    pub fn finish(&self, succeeded: bool) -> (r: Finish)
        ensures
            *self == Indicator::Spinner ==> r == Finish::NoBar,
            self is Bar && succeeded ==> r == Finish::Success,
            self is Bar && !succeeded ==> r == Finish::Failure,
    {
        match self {
            Indicator::Spinner => Finish::NoBar,
            Indicator::Bar { .. } => if succeeded {
                Finish::Success
            } else {
                Finish::Failure
            },
        }
    }
}

/// The bytes of one body received so far, out of the announced total.
#[derive(Debug, Clone, Copy, PartialEq, Eq, Structural)]
pub struct Transfer {
    pub total: u64,
    pub received: u64,
}

impl Transfer {
    /// A transfer that has not received anything yet; it is reported before
    /// the first chunk, so that a start is told apart from no start.
    pub fn start(total: u64) -> (r: Self)
        ensures
            r == (Transfer { total, received: 0 }),
    {
        Transfer { total, received: 0 }
    }

    /// Counts a chunk of `n` bytes and returns the new count.
    pub fn add(&mut self, n: u64) -> (r: u64)
        ensures
            final(self).total == old(self).total,
            final(self).received == (if old(self).received + n <= u64::MAX {
                (old(self).received + n) as u64
            } else {
                u64::MAX
            }),
            r == final(self).received,
    {
        if u64::MAX - self.received < n {
            self.received = u64::MAX;
        } else {
            self.received = self.received + n;
        }
        self.received
    }
}

pub open spec fn title_or(title: Option<String>, other: Seq<char>) -> Seq<char> {
    match title {
        Some(t) => t@,
        None => other,
    }
}

/// The spinner's label: the title, or `Setting up download`.
pub fn spinner_message(title: &Option<String>) -> (r: String)
    ensures
        r@ == title_or(*title, "Setting up download"@),
{
    match title {
        Some(t) => t.clone(),
        None => String::from_str("Setting up download"),
    }
}

/// The bar's label: the title, or `Downloading from '<url>'`.
pub fn bar_message(title: &Option<String>, url: &str) -> (r: String)
    ensures
        r@ == title_or(*title, "Downloading from '"@ + url@ + "'"@),
{
    match title {
        Some(t) => t.clone(),
        None => {
            let mut s = String::from_str("Downloading from '");
            s.append(url);
            s.append("'");
            s
        },
    }
}

/// The name an item goes by in an error line: its title, or its URL.
pub fn display_name(title: &Option<String>, url: &str) -> (r: String)
    ensures
        r@ == title_or(*title, url@),
{
    match title {
        Some(t) => t.clone(),
        None => String::from_str(url),
    }
}

} // verus!
