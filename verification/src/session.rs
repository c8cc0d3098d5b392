//! The decisions of an import, one step at a time.
//!
//! An import needs collaborators that the library cannot call: a file
//! picker, the reader of profiles, the file system, the terminal. A
//! [`Session`] holds what has been settled so far and says what to do next;
//! the caller does it and comes back with a [`Reply`].

use crate::config::{Config, ProfileItem};
use crate::error::ImportError;
use crate::names::name_taken;
use crate::paths::{join, joined};
use std::path::PathBuf;
use vstd::prelude::*;

verus! {

/// What the caller is asked to do for a session.
#[derive(Clone, Copy, Debug, PartialEq, Eq)]
pub enum Request<'a> {
    /// Find the current working directory.
    WorkingDir,
    /// Let the user pick one entry with the file picker, which opens in
    /// `start`: a directory if `directory` is set, a file if not.
    Pick { start: &'a PathBuf, directory: bool },
    /// Resolve the path to its canonical form.
    Canonicalize(&'a PathBuf),
    /// Ask the profile reader whether there is a profile at the path.
    ReadProfile(&'a PathBuf),
    /// Find the directory of the game on this platform.
    MinecraftDir,
    /// Show the default output directory and ask whether the user wants
    /// another one.
    ConfirmCustomDir { default_dir: &'a PathBuf },
    /// Check that the directory can take the mods of a profile.
    CheckOutputDir(&'a PathBuf),
    /// Ask the user for the name of the profile.
    Name,
}

/// What came of a request.
#[derive(Debug, PartialEq, Eq)]
pub enum Reply {
    /// The path that was asked for: the working directory, the game's
    /// directory, or the canonical form of a path.
    Path(PathBuf),
    /// What the user picked: nothing, if the picker was dismissed.
    Picked(Option<PathBuf>),
    /// Whether the reader found a profile.
    Found(bool),
    /// Whether the user wants a directory other than the default.
    Confirmed(bool),
    /// The output directory passed its check.
    Accepted,
    /// The name that the user entered.
    Name(String),
    /// The collaborator failed.
    Failed,
}

/// How far an import has come. The first four states settle the path of
/// the profile, the next four its output directory, `NamingProfile` its
/// name; `Ready` and `Failed` are final.
#[derive(Debug, PartialEq, Eq)]
#[allow(inconsistent_fields)]
pub enum Session {
    /// No path was given: the working directory is wanted, where the file
    /// picker is to open.
    LocatingWorkingDir { name: Option<String>, output_dir: Option<PathBuf> },
    /// The user is to pick the profile.
    PickingProfile { name: Option<String>, output_dir: Option<PathBuf>, start: PathBuf },
    /// The user picked `picked`, whose canonical form is wanted.
    Canonicalizing { name: Option<String>, output_dir: Option<PathBuf>, picked: PathBuf },
    /// The path is settled, if the reader finds a profile there.
    ReadingProfile { name: Option<String>, output_dir: Option<PathBuf>, path: PathBuf },
    /// No output directory was given: the game's directory is wanted, under
    /// which the default lies.
    LocatingMinecraftDir { name: Option<String>, path: PathBuf },
    /// The user is to say whether the default will do.
    OfferingCustomDir { name: Option<String>, path: PathBuf, default_dir: PathBuf },
    /// The user is to pick a directory in place of the default.
    PickingOutputDir { name: Option<String>, path: PathBuf, default_dir: PathBuf },
    /// The user picked `picked`, which has to pass the check.
    CheckingOutputDir { name: Option<String>, path: PathBuf, picked: PathBuf },
    /// No name was given: the user is to enter one that no profile bears.
    NamingProfile { path: PathBuf, output_dir: PathBuf },
    /// All three values are settled: the profile can be registered.
    Ready { path: PathBuf, name: String, output_dir: PathBuf },
    /// The import was given up.
    Failed(ImportError),
}

/// The output directory of a profile unless the user picks another: `mods`
/// under the game's directory.
pub open spec fn default_output_dir(minecraft_dir: PathBuf) -> PathBuf {
    joined(minecraft_dir, "mods"@)
}

impl Session {
    /// The state in which an import begins. A path that the caller gives is
    /// taken as it is, and goes to the profile reader like any other.
    pub open spec fn initial(
        name: Option<String>,
        path: Option<PathBuf>,
        output_dir: Option<PathBuf>,
    ) -> Session {
        match path {
            Some(path) => Session::ReadingProfile { name, output_dir, path },
            None => Session::LocatingWorkingDir { name, output_dir },
        }
    }

    /// The state once a profile was found at `path`. An output directory that
    /// the caller gave is taken as it is; without one, the default is worked
    /// out next.
    pub open spec fn with_path(
        name: Option<String>,
        output_dir: Option<PathBuf>,
        path: PathBuf,
    ) -> Session {
        match output_dir {
            Some(output_dir) => Session::with_output_dir(name, path, output_dir),
            None => Session::LocatingMinecraftDir { name, path },
        }
    }

    /// The state once the output directory is settled. A name that the caller
    /// gave is taken as it is, whether or not a profile bears it; without
    /// one, the user is asked.
    pub open spec fn with_output_dir(
        name: Option<String>,
        path: PathBuf,
        output_dir: PathBuf,
    ) -> Session {
        match name {
            Some(name) => Session::Ready { path, name, output_dir },
            None => Session::NamingProfile { path, output_dir },
        }
    }

    /// Whether the session is over: nothing is asked any more, and no reply
    /// changes it.
    pub open spec fn finished(self) -> bool {
        self is Ready || self is Failed
    }

    /// How far the session has come, as a number: a reply never takes a
    /// session back.
    pub open spec fn stage(self) -> nat {
        match self {
            Session::LocatingWorkingDir { .. } => 0,
            Session::PickingProfile { .. } => 1,
            Session::Canonicalizing { .. } => 2,
            Session::ReadingProfile { .. } => 3,
            Session::LocatingMinecraftDir { .. } => 4,
            Session::OfferingCustomDir { .. } => 5,
            Session::PickingOutputDir { .. } => 6,
            Session::CheckingOutputDir { .. } => 7,
            Session::NamingProfile { .. } => 8,
            Session::Ready { .. } => 9,
            Session::Failed(_) => 9,
        }
    }

    /// What the session asks of the caller; nothing once it is over.
    pub open spec fn pending(self) -> Option<Request<'static>> {
        match self {
            Session::LocatingWorkingDir { .. } => Some(Request::WorkingDir),
            Session::PickingProfile { start, .. } => Some(
                Request::Pick { start: &start, directory: false },
            ),
            Session::Canonicalizing { picked, .. } => Some(Request::Canonicalize(&picked)),
            Session::ReadingProfile { path, .. } => Some(Request::ReadProfile(&path)),
            Session::LocatingMinecraftDir { .. } => Some(Request::MinecraftDir),
            Session::OfferingCustomDir { default_dir, .. } => Some(
                Request::ConfirmCustomDir { default_dir: &default_dir },
            ),
            Session::PickingOutputDir { default_dir, .. } => Some(
                Request::Pick { start: &default_dir, directory: true },
            ),
            Session::CheckingOutputDir { picked, .. } => Some(Request::CheckOutputDir(&picked)),
            Session::NamingProfile { .. } => Some(Request::Name),
            Session::Ready { .. } => None,
            Session::Failed(_) => None,
        }
    }

    /// The state after `reply`, where `names` are the names of the profiles
    /// that are registered.
    ///
    /// Each state takes the replies that answer its request. Where the user
    /// was asked whether the default directory will do, every reply other
    /// than a yes counts as a no; where a directory is being checked, every
    /// reply other than its acceptance counts as its rejection. In any other
    /// state a reply that does not answer the request counts as a failure of
    /// the collaborator, which ends the import. A session that is over stays
    /// as it is.
    pub open spec fn next(self, names: Seq<Seq<char>>, reply: Reply) -> Session {
        match (self, reply) {
            (Session::Ready { .. }, _) => self,
            (Session::Failed(_), _) => self,
            (Session::LocatingWorkingDir { name, output_dir }, Reply::Path(start)) => {
                Session::PickingProfile { name, output_dir, start }
            },
            (Session::PickingProfile { name, output_dir, .. }, Reply::Picked(Some(picked))) => {
                Session::Canonicalizing { name, output_dir, picked }
            },
            (Session::PickingProfile { .. }, Reply::Picked(None)) => {
                Session::Failed(ImportError::NoPathSelected)
            },
            (Session::Canonicalizing { name, output_dir, .. }, Reply::Path(path)) => {
                Session::ReadingProfile { name, output_dir, path }
            },
            (Session::ReadingProfile { name, output_dir, path }, Reply::Found(true)) => {
                Session::with_path(name, output_dir, path)
            },
            (Session::ReadingProfile { .. }, Reply::Found(false)) => {
                Session::Failed(ImportError::NotAProfile)
            },
            (Session::LocatingMinecraftDir { name, path }, Reply::Path(minecraft_dir)) => {
                Session::OfferingCustomDir {
                    name,
                    path,
                    default_dir: default_output_dir(minecraft_dir),
                }
            },
            (Session::OfferingCustomDir { name, path, default_dir }, Reply::Confirmed(true)) => {
                Session::PickingOutputDir { name, path, default_dir }
            },
            (Session::OfferingCustomDir { name, path, default_dir }, _) => {
                Session::with_output_dir(name, path, default_dir)
            },
            (Session::PickingOutputDir { name, path, .. }, Reply::Picked(Some(picked))) => {
                Session::CheckingOutputDir { name, path, picked }
            },
            (Session::PickingOutputDir { name, path, default_dir }, Reply::Picked(None)) => {
                Session::with_output_dir(name, path, default_dir)
            },
            (Session::CheckingOutputDir { name, path, picked }, Reply::Accepted) => {
                Session::with_output_dir(name, path, picked)
            },
            (Session::CheckingOutputDir { .. }, _) => {
                Session::Failed(ImportError::OutputDirRejected)
            },
            (Session::NamingProfile { path, output_dir }, Reply::Name(name)) => {
                if name_taken(names, name@) {
                    self
                } else {
                    Session::Ready { path, name, output_dir }
                }
            },
            _ => Session::Failed(ImportError::Io),
        }
    }

    /// The path that the profile will have if the import succeeds: known as
    /// soon as a path was given, or picked and resolved.
    pub open spec fn path(self) -> Option<PathBuf> {
        match self {
            Session::ReadingProfile { path, .. } => Some(path),
            Session::LocatingMinecraftDir { path, .. } => Some(path),
            Session::OfferingCustomDir { path, .. } => Some(path),
            Session::PickingOutputDir { path, .. } => Some(path),
            Session::CheckingOutputDir { path, .. } => Some(path),
            Session::NamingProfile { path, .. } => Some(path),
            Session::Ready { path, .. } => Some(path),
            _ => None,
        }
    }

    /// The output directory that the profile will have if the import
    /// succeeds: known if one was given, and else once the user has kept
    /// the default or a directory of the user's choice has passed its check.
    pub open spec fn output_dir(self) -> Option<PathBuf> {
        match self {
            Session::LocatingWorkingDir { output_dir, .. } => output_dir,
            Session::PickingProfile { output_dir, .. } => output_dir,
            Session::Canonicalizing { output_dir, .. } => output_dir,
            Session::ReadingProfile { output_dir, .. } => output_dir,
            Session::NamingProfile { output_dir, .. } => Some(output_dir),
            Session::Ready { output_dir, .. } => Some(output_dir),
            _ => None,
        }
    }

    /// The name that the profile will have if the import succeeds: known if
    /// one was given, and else once the user has entered one that is free.
    pub open spec fn name(self) -> Option<String> {
        match self {
            Session::LocatingWorkingDir { name, .. } => name,
            Session::PickingProfile { name, .. } => name,
            Session::Canonicalizing { name, .. } => name,
            Session::ReadingProfile { name, .. } => name,
            Session::LocatingMinecraftDir { name, .. } => name,
            Session::OfferingCustomDir { name, .. } => name,
            Session::PickingOutputDir { name, .. } => name,
            Session::CheckingOutputDir { name, .. } => name,
            Session::Ready { name, .. } => Some(name),
            _ => None,
        }
    }

    /// Whether the profile reader has found a profile at the session's path.
    pub open spec fn profile_found(self) -> bool {
        self.path() is Some && !(self is ReadingProfile)
    }

    /// How the import ends if it ends here: with the profile to register, or
    /// with the reason for which it was given up. A session that is still
    /// waiting for a reply is given up as if its collaborator had failed.
    pub open spec fn result(self) -> Result<ProfileItem, ImportError> {
        match self {
            Session::Ready { path, name, output_dir } => Ok(ProfileItem { path, name, output_dir }),
            Session::Failed(error) => Err(error),
            _ => Err(ImportError::Io),
        }
    }

    /// Begins an import with what the caller gives of name, path and output
    /// directory.
    pub fn begin(name: Option<String>, path: Option<PathBuf>, output_dir: Option<PathBuf>) -> (session:
        Session)
        ensures
            session == Session::initial(name, path, output_dir),
    {
        match path {
            Some(path) => Session::ReadingProfile { name, output_dir, path },
            None => Session::LocatingWorkingDir { name, output_dir },
        }
    }

    /// What the caller is to do next; nothing once the session is over.
    pub fn request(&self) -> (request: Option<Request<'_>>)
        ensures
            request == self.pending(),
    {
        match self {
            Session::LocatingWorkingDir { .. } => Some(Request::WorkingDir),
            Session::PickingProfile { start, .. } => Some(Request::Pick { start, directory: false }),
            Session::Canonicalizing { picked, .. } => Some(Request::Canonicalize(picked)),
            Session::ReadingProfile { path, .. } => Some(Request::ReadProfile(path)),
            Session::LocatingMinecraftDir { .. } => Some(Request::MinecraftDir),
            Session::OfferingCustomDir { default_dir, .. } => Some(
                Request::ConfirmCustomDir { default_dir },
            ),
            Session::PickingOutputDir { default_dir, .. } => Some(
                Request::Pick { start: default_dir, directory: true },
            ),
            Session::CheckingOutputDir { picked, .. } => Some(Request::CheckOutputDir(picked)),
            Session::NamingProfile { .. } => Some(Request::Name),
            Session::Ready { .. } => None,
            Session::Failed(_) => None,
        }
    }

    /// Ends the session. A session that is ready registers its profile in
    /// `config`, behind those that are there; any other leaves `config` as it
    /// is and returns the reason.
    pub fn finish(self, config: &mut Config) -> (done: Result<(), ImportError>)
        ensures
            match self.result() {
                Ok(item) => done is Ok && final(config)@ == old(config)@.push(item),
                Err(error) => done == Err::<(), ImportError>(error) && *final(config) == *old(
                    config,
                ),
            },
    {
        match self {
            Session::Ready { path, name, output_dir } => {
                config.add_profile(name, path, output_dir);
                Ok(())
            },
            Session::Failed(error) => Err(error),
            _ => Err(ImportError::Io),
        }
    }

    fn settle_path(name: Option<String>, output_dir: Option<PathBuf>, path: PathBuf) -> (session:
        Session)
        ensures
            session == Session::with_path(name, output_dir, path),
    {
        match output_dir {
            Some(output_dir) => Session::settle_output_dir(name, path, output_dir),
            None => Session::LocatingMinecraftDir { name, path },
        }
    }

    fn settle_output_dir(name: Option<String>, path: PathBuf, output_dir: PathBuf) -> (session:
        Session)
        ensures
            session == Session::with_output_dir(name, path, output_dir),
    {
        match name {
            Some(name) => Session::Ready { path, name, output_dir },
            None => Session::NamingProfile { path, output_dir },
        }
    }

    /// Takes the reply to the pending request and moves on. `config` is read
    /// for the names that are taken, and only where a name comes in.
    pub fn advance(self, config: &Config, reply: Reply) -> (session: Session)
        ensures
            session == self.next(config.names(), reply),
    {
        match self {
            Session::LocatingWorkingDir { name, output_dir } => match reply {
                Reply::Path(start) => Session::PickingProfile { name, output_dir, start },
                _ => Session::Failed(ImportError::Io),
            },
            Session::PickingProfile { name, output_dir, .. } => match reply {
                Reply::Picked(Some(picked)) => Session::Canonicalizing { name, output_dir, picked },
                Reply::Picked(None) => Session::Failed(ImportError::NoPathSelected),
                _ => Session::Failed(ImportError::Io),
            },
            Session::Canonicalizing { name, output_dir, .. } => match reply {
                Reply::Path(path) => Session::ReadingProfile { name, output_dir, path },
                _ => Session::Failed(ImportError::Io),
            },
            Session::ReadingProfile { name, output_dir, path } => match reply {
                Reply::Found(true) => Session::settle_path(name, output_dir, path),
                Reply::Found(false) => Session::Failed(ImportError::NotAProfile),
                _ => Session::Failed(ImportError::Io),
            },
            Session::LocatingMinecraftDir { name, path } => match reply {
                Reply::Path(minecraft_dir) => {
                    let default_dir = join(&minecraft_dir, "mods");
                    Session::OfferingCustomDir { name, path, default_dir }
                },
                _ => Session::Failed(ImportError::Io),
            },
            Session::OfferingCustomDir { name, path, default_dir } => match reply {
                Reply::Confirmed(true) => Session::PickingOutputDir { name, path, default_dir },
                _ => Session::settle_output_dir(name, path, default_dir),
            },
            Session::PickingOutputDir { name, path, default_dir } => match reply {
                Reply::Picked(Some(picked)) => Session::CheckingOutputDir { name, path, picked },
                Reply::Picked(None) => Session::settle_output_dir(name, path, default_dir),
                _ => Session::Failed(ImportError::Io),
            },
            Session::CheckingOutputDir { name, path, picked } => match reply {
                Reply::Accepted => Session::settle_output_dir(name, path, picked),
                _ => Session::Failed(ImportError::OutputDirRejected),
            },
            Session::NamingProfile { path, output_dir } => match reply {
                Reply::Name(name) => if config.name_taken(name.as_str()) {
                    Session::NamingProfile { path, output_dir }
                } else {
                    Session::Ready { path, name, output_dir }
                },
                _ => Session::Failed(ImportError::Io),
            },
            Session::Ready { path, name, output_dir } => Session::Ready { path, name, output_dir },
            Session::Failed(error) => Session::Failed(error),
        }
    }
}

} // verus!
