//! A whole import, from what the caller gives to the profile registered.

use crate::config::{names_of, Config, ProfileItem};
use crate::error::ImportError;
use crate::session::{Reply, Session};
use std::path::PathBuf;
use vstd::prelude::*;
use vstd::std_specs::iter::IteratorSpec;

verus! {

/// The state of `session` after the replies, taken in their order.
pub open spec fn run(session: Session, names: Seq<Seq<char>>, replies: Seq<Reply>) -> Session
    decreases replies.len(),
{
    if replies.len() == 0 {
        session
    } else {
        run(session, names, replies.drop_last()).next(names, replies.last())
    }
}

/// How an import ends that begins with what the caller gives of name, path
/// and output directory, and whose requests are answered by `replies`, in
/// their order: with the profile to register, or with the reason for which
/// it is given up. `names` are the names of the profiles that are registered.
pub open spec fn import_result(
    names: Seq<Seq<char>>,
    name: Option<String>,
    path: Option<PathBuf>,
    output_dir: Option<PathBuf>,
    replies: Seq<Reply>,
) -> Result<ProfileItem, ImportError> {
    run(Session::initial(name, path, output_dir), names, replies).result()
}

/// The profiles after such an import: one more at the end if it succeeds,
/// the same if it does not.
pub open spec fn imported(
    profiles: Seq<ProfileItem>,
    name: Option<String>,
    path: Option<PathBuf>,
    output_dir: Option<PathBuf>,
    replies: Seq<Reply>,
) -> Seq<ProfileItem> {
    match import_result(names_of(profiles), name, path, output_dir, replies) {
        Ok(item) => profiles.push(item),
        Err(_) => profiles,
    }
}

/// Imports a profile into `config`, with `replies` for what the
/// collaborators answer, in the order of the requests.
///
/// On success `config` has one more profile, at the end; on failure it is
/// unchanged. Replies that are left when the import is over change nothing;
/// an import whose replies run out is given up, as if a collaborator had
/// failed.
pub fn import(
    config: &mut Config,
    name: Option<String>,
    path: Option<PathBuf>,
    output_dir: Option<PathBuf>,
    replies: Vec<Reply>,
) -> (done: Result<(), ImportError>)
    ensures
        match import_result(old(config).names(), name, path, output_dir, replies@) {
            Ok(item) => done is Ok && final(config)@ == old(config)@.push(item),
            Err(error) => done == Err::<(), ImportError>(error) && *final(config) == *old(config),
        },
        final(config)@ == imported(old(config)@, name, path, output_dir, replies@),
{
    let ghost names = config.names();
    let ghost first = Session::initial(name, path, output_dir);
    let ghost all = replies@;
    let mut session = Session::begin(name, path, output_dir);
    for reply in feed: replies
        invariant
            feed.seq() == all,
            *config == *old(config),
            names == config.names(),
            session == run(first, names, all.take(feed.index() as int)),
    {
        proof {
            let read = feed.index() as int;
            assert(all.take(read + 1).drop_last() =~= all.take(read));
        }
        session = session.advance(config, reply);
    }
    proof {
        assert(all.take(all.len() as int) =~= all);
    }
    session.finish(config)
}

} // verus!
