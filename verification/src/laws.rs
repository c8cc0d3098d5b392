//! What holds of every import.

use crate::config::{names_of, ProfileItem};
use crate::error::ImportError;
use crate::import::{import_result, imported, run};
use crate::names::{
    added_name_is_taken, name_taken, names_distinct, names_stay_distinct, same_name,
};
use crate::session::{default_output_dir, Reply, Request, Session};
use std::path::PathBuf;
use vstd::prelude::*;

verus! {

/// Replies taken in two parts lead where the whole of them leads.
pub proof fn run_in_two_parts(
    session: Session,
    names: Seq<Seq<char>>,
    first: Seq<Reply>,
    rest: Seq<Reply>,
)
    ensures
        run(session, names, first + rest) == run(run(session, names, first), names, rest),
    decreases rest.len(),
{
    if rest.len() == 0 {
        assert(first + rest =~= first);
    } else {
        assert((first + rest).drop_last() =~= first + rest.drop_last());
        run_in_two_parts(session, names, first, rest.drop_last());
    }
}

/// The first reply is taken by the session as it stands, the others by the
/// session that comes of it.
pub proof fn run_from_first_reply(session: Session, names: Seq<Seq<char>>, replies: Seq<Reply>)
    requires
        replies.len() > 0,
    ensures
        run(session, names, replies) == run(
            session.next(names, replies[0]),
            names,
            replies.drop_first(),
        ),
{
    let first = seq![replies[0]];
    assert(first + replies.drop_first() =~= replies);
    assert(first.drop_last() =~= Seq::<Reply>::empty());
    assert(run(session, names, first) == session.next(names, replies[0])) by {
        reveal_with_fuel(run, 2);
    }
    run_in_two_parts(session, names, first, replies.drop_first());
}

/// A session that is over stays as it is, whatever is replied.
pub proof fn finished_session_stays(session: Session, names: Seq<Seq<char>>, replies: Seq<Reply>)
    requires
        session.finished(),
    ensures
        run(session, names, replies) == session,
    decreases replies.len(),
{
    if replies.len() > 0 {
        finished_session_stays(session, names, replies.drop_last());
    }
}

/// An import only moves forward: every reply takes the session to a later
/// stage, until it is over. The one request that is made again is that for a
/// name, after the user entered one that is taken.
pub proof fn sessions_move_forward(session: Session, names: Seq<Seq<char>>, reply: Reply)
    ensures
        ({
            let next = session.next(names, reply);
            ||| next.stage() > session.stage()
            ||| session.finished() && next == session
            ||| {
                &&& session is NamingProfile
                &&& next == session
                &&& reply matches Reply::Name(entered)
                &&& name_taken(names, entered@)
            }
        }),
{
}

/// What a session knows of the profile's path, output directory and name,
/// every later session knows too, unless the import was given up; and it is
/// what the profile has if the import succeeds.
pub proof fn known_values_are_kept(session: Session, names: Seq<Seq<char>>, replies: Seq<Reply>)
    ensures
        ({
            let later = run(session, names, replies);
            later is Failed || {
                &&& session.path() is Some ==> later.path() == session.path()
                &&& session.output_dir() is Some ==> later.output_dir() == session.output_dir()
                &&& session.name() is Some ==> later.name() == session.name()
            }
        }),
        run(session, names, replies).result() matches Ok(item) ==> {
            &&& session.path() matches Some(path) ==> item.path == path
            &&& session.output_dir() matches Some(output_dir) ==> item.output_dir == output_dir
            &&& session.name() matches Some(name) ==> item.name == name
        },
    decreases replies.len(),
{
    if replies.len() > 0 {
        known_values_are_kept(session, names, replies.drop_last());
    }
}

/// A path that the caller gives is checked by the profile reader first of
/// all: if the reader finds no profile there, the import fails, and the
/// profiles stay as they are.
pub proof fn no_profile_at_given_path(
    profiles: Seq<ProfileItem>,
    name: Option<String>,
    path: PathBuf,
    output_dir: Option<PathBuf>,
    replies: Seq<Reply>,
)
    requires
        replies.len() > 0,
        replies[0] == Reply::Found(false),
    ensures
        Session::initial(name, Some(path), output_dir).pending() == Some(
            Request::ReadProfile(&path),
        ),
        import_result(names_of(profiles), name, Some(path), output_dir, replies) == Err::<
            ProfileItem,
            ImportError,
        >(ImportError::NotAProfile),
        imported(profiles, name, Some(path), output_dir, replies) == profiles,
{
    let names = names_of(profiles);
    let begun = Session::initial(name, Some(path), output_dir);
    run_from_first_reply(begun, names, replies);
    finished_session_stays(Session::Failed(ImportError::NotAProfile), names, replies.drop_first());
}

/// With name, path and output directory given, and a profile found at the
/// path, the import succeeds: the profiles get one more, made of the three
/// values as they were given, behind those that were there, which stay as
/// they are. Nothing else is asked of anyone.
pub proof fn all_given_and_found(
    profiles: Seq<ProfileItem>,
    name: String,
    path: PathBuf,
    output_dir: PathBuf,
    replies: Seq<Reply>,
)
    requires
        replies.len() > 0,
        replies[0] == Reply::Found(true),
    ensures
        import_result(names_of(profiles), Some(name), Some(path), Some(output_dir), replies) == Ok::<
            ProfileItem,
            ImportError,
        >(ProfileItem { path, name, output_dir }),
        imported(profiles, Some(name), Some(path), Some(output_dir), replies) == profiles.push(
            ProfileItem { path, name, output_dir },
        ),
        Session::initial(Some(name), Some(path), Some(output_dir)).next(
            names_of(profiles),
            replies[0],
        ).finished(),
{
    let names = names_of(profiles);
    let begun = Session::initial(Some(name), Some(path), Some(output_dir));
    run_from_first_reply(begun, names, replies);
    finished_session_stays(Session::Ready { path, name, output_dir }, names, replies.drop_first());
}

/// Without an output directory given, the user is offered `mods` under the
/// game's directory; and unless the answer is a yes to another directory,
/// that is the output directory of the profile. With a name given, the
/// import then succeeds at once.
pub proof fn default_dir_unless_confirmed(
    names: Seq<Seq<char>>,
    name: Option<String>,
    path: Option<PathBuf>,
    before: Seq<Reply>,
    minecraft_dir: PathBuf,
    answer: Reply,
    after: Seq<Reply>,
)
    requires
        run(Session::initial(name, path, None), names, before).pending() == Some(
            Request::MinecraftDir,
        ),
        answer != Reply::Confirmed(true),
    ensures
        run(
            Session::initial(name, path, None),
            names,
            before.push(Reply::Path(minecraft_dir)),
        ).pending() == Some(
            Request::ConfirmCustomDir { default_dir: &default_output_dir(minecraft_dir) },
        ),
        import_result(
            names,
            name,
            path,
            None,
            before + seq![Reply::Path(minecraft_dir), answer] + after,
        ) matches Ok(item) ==> item.output_dir == default_output_dir(minecraft_dir),
        name is Some ==> import_result(
            names,
            name,
            path,
            None,
            before + seq![Reply::Path(minecraft_dir), answer] + after,
        ) is Ok,
{
    let begun = Session::initial(name, path, None);
    let asked = run(begun, names, before);
    let offered = asked.next(names, Reply::Path(minecraft_dir));
    let settled = offered.next(names, answer);
    let both = seq![Reply::Path(minecraft_dir), answer];
    assert(before.push(Reply::Path(minecraft_dir)).drop_last() =~= before);
    assert(run(asked, names, both) == settled) by {
        run_from_first_reply(asked, names, both);
        run_from_first_reply(offered, names, both.drop_first());
        assert(both.drop_first().drop_first() =~= Seq::<Reply>::empty());
    }
    run_in_two_parts(begun, names, before, both);
    run_in_two_parts(begun, names, before + both, after);
    known_values_are_kept(settled, names, after);
    known_values_are_kept(begun, names, before);
    if name is Some {
        finished_session_stays(settled, names, after);
    }
}

/// Where the user wants another directory than the default and picks one
/// that does not pass its check, the import fails, and the profiles stay as
/// they are: the default is not fallen back on.
pub proof fn rejected_dir_fails(
    profiles: Seq<ProfileItem>,
    name: Option<String>,
    path: Option<PathBuf>,
    before: Seq<Reply>,
    picked: PathBuf,
    verdict: Reply,
    after: Seq<Reply>,
)
    requires
        run(Session::initial(name, path, None), names_of(profiles), before) is OfferingCustomDir,
        verdict != Reply::Accepted,
    ensures
        run(
            Session::initial(name, path, None),
            names_of(profiles),
            before + seq![Reply::Confirmed(true), Reply::Picked(Some(picked))],
        ).pending() == Some(Request::CheckOutputDir(&picked)),
        import_result(
            names_of(profiles),
            name,
            path,
            None,
            before + seq![Reply::Confirmed(true), Reply::Picked(Some(picked)), verdict] + after,
        ) == Err::<ProfileItem, ImportError>(ImportError::OutputDirRejected),
        imported(
            profiles,
            name,
            path,
            None,
            before + seq![Reply::Confirmed(true), Reply::Picked(Some(picked)), verdict] + after,
        ) == profiles,
{
    let names = names_of(profiles);
    let begun = Session::initial(name, path, None);
    let offered = run(begun, names, before);
    let picking = offered.next(names, Reply::Confirmed(true));
    let checking = picking.next(names, Reply::Picked(Some(picked)));
    let failed = checking.next(names, verdict);
    let two = seq![Reply::Confirmed(true), Reply::Picked(Some(picked))];
    let three = seq![Reply::Confirmed(true), Reply::Picked(Some(picked)), verdict];
    assert(run(offered, names, two) == checking) by {
        run_from_first_reply(offered, names, two);
        run_from_first_reply(picking, names, two.drop_first());
        assert(two.drop_first().drop_first() =~= Seq::<Reply>::empty());
    }
    assert(run(offered, names, three) == failed) by {
        assert(three.drop_last() =~= two);
    }
    run_in_two_parts(begun, names, before, two);
    run_in_two_parts(begun, names, before, three);
    run_in_two_parts(begun, names, before + three, after);
    finished_session_stays(failed, names, after);
}

/// The same path and output directory can be imported under two names, one
/// after the other: both imports succeed, and the profiles get two more,
/// which differ in their names alone. A path that is registered already is
/// no obstacle.
pub proof fn same_profile_under_two_names(
    profiles: Seq<ProfileItem>,
    first_name: String,
    second_name: String,
    path: PathBuf,
    output_dir: PathBuf,
    first_replies: Seq<Reply>,
    second_replies: Seq<Reply>,
)
    requires
        first_name@ != second_name@,
        first_replies.len() > 0,
        first_replies[0] == Reply::Found(true),
        second_replies.len() > 0,
        second_replies[0] == Reply::Found(true),
    ensures
        ({
            let first = ProfileItem { path, name: first_name, output_dir };
            let second = ProfileItem { path, name: second_name, output_dir };
            let once = imported(
                profiles,
                Some(first_name),
                Some(path),
                Some(output_dir),
                first_replies,
            );
            let twice = imported(
                once,
                Some(second_name),
                Some(path),
                Some(output_dir),
                second_replies,
            );
            &&& once == profiles.push(first)
            &&& twice == profiles.push(first).push(second)
            &&& first != second
        }),
{
    all_given_and_found(profiles, first_name, path, output_dir, first_replies);
    let once = profiles.push(ProfileItem { path, name: first_name, output_dir });
    all_given_and_found(once, second_name, path, output_dir, second_replies);
}

/// A name that a profile bears, whatever the case of its ASCII letters, is
/// not accepted from the user: the session goes on asking for a name.
pub proof fn taken_name_is_asked_again(
    names: Seq<Seq<char>>,
    i: int,
    path: PathBuf,
    output_dir: PathBuf,
    entered: String,
)
    requires
        0 <= i < names.len(),
        same_name(names[i], entered@),
    ensures
        ({
            let asking = Session::NamingProfile { path, output_dir };
            &&& asking.pending() == Some(Request::Name)
            &&& asking.next(names, Reply::Name(entered)) == asking
        }),
{
}

/// A name, a path and an output directory that the caller gives are taken
/// as they are.
pub proof fn given_values_are_taken(
    names: Seq<Seq<char>>,
    name: Option<String>,
    path: Option<PathBuf>,
    output_dir: Option<PathBuf>,
    replies: Seq<Reply>,
)
    ensures
        import_result(names, name, path, output_dir, replies) matches Ok(item) ==> {
            &&& name matches Some(given) ==> item.name == given
            &&& path matches Some(given) ==> item.path == given
            &&& output_dir matches Some(given) ==> item.output_dir == given
        },
{
    known_values_are_kept(Session::initial(name, path, output_dir), names, replies);
}

/// Whether a session that began without a name has no name yet, or is ready
/// with one that no profile bears.
spec fn name_is_free(session: Session, names: Seq<Seq<char>>) -> bool {
    match session {
        Session::Ready { name, .. } => !name_taken(names, name@),
        _ => session.name() is None,
    }
}

proof fn name_stays_free(session: Session, names: Seq<Seq<char>>, replies: Seq<Reply>)
    requires
        name_is_free(session, names),
    ensures
        name_is_free(run(session, names, replies), names),
    decreases replies.len(),
{
    if replies.len() > 0 {
        name_stays_free(session, names, replies.drop_last());
    }
}

/// A name that the user enters is one that no profile bears, the case of
/// ASCII letters set aside: an import without a name given keeps the names
/// of the profiles unique.
pub proof fn entered_name_is_free(
    profiles: Seq<ProfileItem>,
    path: Option<PathBuf>,
    output_dir: Option<PathBuf>,
    replies: Seq<Reply>,
)
    ensures
        import_result(names_of(profiles), None, path, output_dir, replies) matches Ok(item)
            ==> !name_taken(names_of(profiles), item.name@),
        names_distinct(names_of(profiles)) ==> names_distinct(
            names_of(imported(profiles, None, path, output_dir, replies)),
        ),
{
    let names = names_of(profiles);
    name_stays_free(Session::initial(None, path, output_dir), names, replies);
    if let Ok(item) = import_result(names, None, path, output_dir, replies) {
        assert(names_of(profiles.push(item)) =~= names.push(item.name@));
        names_stay_distinct(names, item.name@);
    }
}

/// The name of a profile that was imported is taken from then on, in every
/// case of its ASCII letters, whether the caller gave it or the user
/// entered it.
pub proof fn imported_name_is_taken(
    profiles: Seq<ProfileItem>,
    name: Option<String>,
    path: Option<PathBuf>,
    output_dir: Option<PathBuf>,
    replies: Seq<Reply>,
    candidate: Seq<char>,
)
    ensures
        import_result(names_of(profiles), name, path, output_dir, replies) matches Ok(item) ==> (
        same_name(item.name@, candidate) ==> name_taken(
            names_of(imported(profiles, name, path, output_dir, replies)),
            candidate,
        )),
{
    if let Ok(item) = import_result(names_of(profiles), name, path, output_dir, replies) {
        assert(names_of(profiles.push(item)) =~= names_of(profiles).push(item.name@));
        added_name_is_taken(names_of(profiles), item.name@, candidate);
    }
}

/// Whether the profile reader was asked about the path of `session` in the
/// course of `replies`, and found a profile there.
spec fn reader_agreed(
    begun: Session,
    session: Session,
    names: Seq<Seq<char>>,
    replies: Seq<Reply>,
) -> bool {
    exists|k: int|
        0 <= k < replies.len() && #[trigger] replies[k] == Reply::Found(true) && run(
            begun,
            names,
            replies.take(k),
        ).pending() == Some(Request::ReadProfile(&session.path()->0))
}

proof fn reader_agreed_before(begun: Session, names: Seq<Seq<char>>, replies: Seq<Reply>)
    requires
        !begun.profile_found(),
    ensures
        run(begun, names, replies).profile_found() ==> reader_agreed(
            begun,
            run(begun, names, replies),
            names,
            replies,
        ),
    decreases replies.len(),
{
    let end = run(begun, names, replies);
    if replies.len() > 0 && end.profile_found() {
        let earlier = replies.drop_last();
        let before = run(begun, names, earlier);
        reader_agreed_before(begun, names, earlier);
        if before.profile_found() {
            let k = choose|k: int|
                0 <= k < earlier.len() && #[trigger] earlier[k] == Reply::Found(true) && run(
                    begun,
                    names,
                    earlier.take(k),
                ).pending() == Some(Request::ReadProfile(&before.path()->0));
            assert(replies[k] == earlier[k]);
            assert(replies.take(k) =~= earlier.take(k));
        } else {
            let k = earlier.len() as int;
            assert(replies[k] == Reply::Found(true));
            assert(replies.take(k) =~= earlier);
        }
    }
}

/// No profile is registered unless the profile reader found one at its
/// path: whoever gives the path, the reader is asked about it, and the
/// import succeeds only after the answer that a profile is there.
pub proof fn profile_was_found(
    names: Seq<Seq<char>>,
    name: Option<String>,
    path: Option<PathBuf>,
    output_dir: Option<PathBuf>,
    replies: Seq<Reply>,
)
    ensures
        import_result(names, name, path, output_dir, replies) matches Ok(item) ==> exists|k: int|
            0 <= k < replies.len() && #[trigger] replies[k] == Reply::Found(true) && run(
                Session::initial(name, path, output_dir),
                names,
                replies.take(k),
            ).pending() == Some(Request::ReadProfile(&item.path)),
{
    reader_agreed_before(Session::initial(name, path, output_dir), names, replies);
}

} // verus!
