use vstd::prelude::*;
use vstd::string::StringExecFns;

use crate::error::Error;
use crate::manifest::Manifest;
use crate::reconcile::{diverges, divergent, law_empty_iff_up_to_date, paths_view, LocalFile};
use crate::release::{first_match, is_package_asset, Asset, Release};

verus! {

/// Where the update cycle stands. `Finished` and `Error` are terminal.
#[derive(Debug)]
pub enum Status {
    /// Fetching the latest release and its manifest.
    Checking,
    /// Comparing the local files against this manifest.
    Comparing(Manifest),
    /// Downloading and unpacking the release to repair these paths.
    Updating(Vec<String>),
    Finished,
    /// Stopped, with the message to show.
    Error(String),
}

/// The outcome of the work that the last command asked for.
#[derive(Debug)]
pub enum Message {
    /// The latest release and its parsed manifest, or why they could not be had.
    Checked(Result<(Release, Manifest), Error>),
    /// The paths that diverge from the manifest.
    Compared(Vec<String>),
    /// Whether downloading and unpacking the archive succeeded.
    Updated(Result<(), Error>),
}

/// The work that the cycle asks its host to do next.
#[derive(Debug, PartialEq, Eq)]
pub enum Command {
    /// Fetch the latest release and its manifest.
    Check,
    /// Compare the local files against the manifest held by `Status::Comparing`.
    Compare,
    /// Download the archive at this address and unpack it over the install.
    Download(String),
    /// Nothing more to do.
    Idle,
}

/// The state of one update cycle and the release it is working from.
#[derive(Debug)]
pub struct Progress {
    pub status: Status,
    pub release: Option<Release>,
}

pub open spec fn has_package(rel: Release) -> bool {
    exists|i: int| 0 <= i < rel.assets@.len() && is_package_asset(#[trigger] rel.assets@[i])
}

/// `url` is the address of the release's first package archive.
pub open spec fn is_package_url(rel: Release, url: Seq<char>) -> bool {
    exists|i: int|
        first_match(rel.assets@, |a: Asset| is_package_asset(a), i) && url == (
        #[trigger] rel.assets@[i]).download_url@
}

pub open spec fn fails_with(p: Progress, e: Error) -> bool {
    p.status matches Status::Error(m) && m@ == e.spec_message()
}

/// A message that does not belong to the current state changes nothing.
pub open spec fn ignored(old: Progress, new: Progress, cmd: Command) -> bool {
    new == old && cmd == Command::Idle
}

/// One step of the cycle: the state before, the message, the state after and
/// the command that the host is to carry out.
pub open spec fn update_post(old: Progress, msg: Message, new: Progress, cmd: Command) -> bool {
    match msg {
        Message::Checked(res) => if old.status is Checking {
            match res {
                Ok((rel, man)) => new.status == Status::Comparing(man) && new.release == Some(rel)
                    && cmd == Command::Compare,
                Err(e) => fails_with(new, e) && new.release == old.release && cmd
                    == Command::Idle,
            }
        } else {
            ignored(old, new, cmd)
        },
        Message::Compared(paths) => if old.status is Comparing {
            if paths@.len() == 0 {
                new.status == Status::Finished && new.release == old.release && cmd
                    == Command::Idle
            } else {
                match old.release {
                    Some(rel) => if has_package(rel) {
                        new.status == Status::Updating(paths) && new.release == old.release
                            && (cmd matches Command::Download(url) && is_package_url(rel, url@))
                    } else {
                        fails_with(new, Error::ReleaseZipNotFound) && new.release == old.release
                            && cmd == Command::Idle
                    },
                    None => fails_with(new, Error::ReleaseZipNotFound) && new.release
                        == old.release && cmd == Command::Idle,
                }
            }
        } else {
            ignored(old, new, cmd)
        },
        Message::Updated(res) => if old.status is Updating {
            match res {
                Ok(_) => new.status == Status::Checking && new.release == old.release && cmd
                    == Command::Check,
                Err(e) => fails_with(new, e) && new.release == old.release && cmd
                    == Command::Idle,
            }
        } else {
            ignored(old, new, cmd)
        },
    }
}

impl Progress {
    /// A cycle at its start: checking, with the command to fetch the release.
    pub fn boot() -> (r: (Progress, Command))
        ensures
            r.0.status is Checking,
            r.0.release is None,
            r.1 == Command::Check,
    {
        (Progress { status: Status::Checking, release: None }, Command::Check)
    }

    /// Takes the outcome of the last command and says what to do next.
    pub fn update(&mut self, message: Message) -> (r: Command)
        ensures
            update_post(*old(self), message, *final(self), r),
    {
        match message {
            Message::Checked(res) => {
                match &self.status {
                    Status::Checking => {},
                    _ => {
                        return Command::Idle;
                    },
                }
                match res {
                    Ok((rel, man)) => {
                        self.status = Status::Comparing(man);
                        self.release = Some(rel);
                        Command::Compare
                    },
                    Err(e) => {
                        self.status = Status::Error(e.message());
                        Command::Idle
                    },
                }
            },
            Message::Compared(paths) => {
                match &self.status {
                    Status::Comparing(_) => {},
                    _ => {
                        return Command::Idle;
                    },
                }
                if paths.len() == 0 {
                    self.status = Status::Finished;
                    return Command::Idle;
                }
                let url = match &self.release {
                    Some(rel) => rel.package_url(),
                    None => Err(Error::ReleaseZipNotFound),
                };
                match url {
                    Ok(u) => {
                        self.status = Status::Updating(paths);
                        Command::Download(u)
                    },
                    Err(e) => {
                        self.status = Status::Error(e.message());
                        Command::Idle
                    },
                }
            },
            Message::Updated(res) => {
                match &self.status {
                    Status::Updating(_) => {},
                    _ => {
                        return Command::Idle;
                    },
                }
                match res {
                    Ok(_) => {
                        self.status = Status::Checking;
                        Command::Check
                    },
                    Err(e) => {
                        self.status = Status::Error(e.message());
                        Command::Idle
                    },
                }
            },
        }
    }
}

/// The decimal digits of a number, most significant first, without leading zeros.
pub open spec fn decimal_text(n: nat) -> Seq<char>
    decreases n,
{
    if n < 10 {
        seq![crate::hash::lower_digit(n as int)]
    } else {
        decimal_text(n / 10).push(crate::hash::lower_digit((n % 10) as int))
    }
}

/// Relies on `usize`'s `to_string`: the number in decimal digits.
#[verifier::external_body]
fn decimal(n: usize) -> (r: String)
    ensures
        r@ == decimal_text(n as nat),
{
    n.to_string()
}

impl Status {
    /// The line shown to the user for each state.
    pub open spec fn spec_label(self) -> Seq<char> {
        match self {
            Status::Checking => "Checking for updates. Please wait."@,
            Status::Comparing(_) => "Checking local files"@,
            Status::Updating(paths) => decimal_text(paths@.len())
                + " files failed to validate. Updating..."@,
            Status::Finished => "Updated! Launching Umineko: Golden Forgery"@,
            Status::Error(m) => "Error: "@ + m@,
        }
    }

    pub fn label(&self) -> (r: String)
        ensures
            r@ == self.spec_label(),
    {
        match self {
            Status::Checking => String::from_str("Checking for updates. Please wait."),
            Status::Comparing(_) => String::from_str("Checking local files"),
            Status::Updating(paths) => decimal(paths.len()).concat(
                " files failed to validate. Updating...",
            ),
            Status::Finished => String::from_str("Updated! Launching Umineko: Golden Forgery"),
            Status::Error(m) => String::from_str("Error: ").concat(m.as_str()),
        }
    }
}

/// When every manifest entry is up to date, comparing finishes the cycle and
/// asks for no download.
pub proof fn law_up_to_date_finishes(
    p: Progress,
    m: Manifest,
    local: Seq<LocalFile>,
    paths: Vec<String>,
    next: Progress,
    cmd: Command,
)
    requires
        p.status == Status::Comparing(m),
        local.len() == m.files@.len(),
        forall|i: int| 0 <= i < local.len() ==> !diverges(m.entries()[i].0, #[trigger] local[i]),
        paths_view(paths@) == divergent(m.entries(), local, local.len()),
        update_post(p, Message::Compared(paths), next, cmd),
    ensures
        next.status is Finished,
        cmd == Command::Idle,
{
    law_empty_iff_up_to_date(m.entries(), local, local.len());
    assert(paths@.len() == paths_view(paths@).len());
}


/// A finished or failed cycle ignores every message.
pub proof fn law_terminal_states_stay(p: Progress, msg: Message, next: Progress, cmd: Command)
    requires
        p.status is Finished || p.status is Error,
        update_post(p, msg, next, cmd),
    ensures
        next == p,
        cmd == Command::Idle,
{
}

} // verus!
