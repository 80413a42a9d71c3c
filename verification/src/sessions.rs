//! A model of what the steps of an activation do to the session links, and
//! the laws of activation over it: the link of a session is never missing
//! while it is replaced, and sessions do not disturb each other.

use vstd::prelude::*;
use crate::activation::{
    current_jdk, link_code, link_name_text, link_started, link_step, linked_major, session_link,
    session_spare, spare_name_text, ActivationText, LinkActionText, LinkPhase, LinkTargets,
    TerminalText,
};
use crate::error::{bare, ErrorKind, ErrorText};
use crate::install::{install_path, EventText};
use crate::paths::{is_absolute, joined, lemma_file_name_of_joined};
use crate::registry::{dir_name, lemma_dir_names, version_of, Disk};
use crate::text::{is_digit, lemma_decimal_text_spells};

verus! {

/// The session links once `action` has been carried out for the activation
/// in `state`.
pub open spec fn link_performed(
    links: LinkTargets,
    state: ActivationText,
    action: LinkActionText,
) -> LinkTargets {
    match action {
        LinkActionText::RemoveSpare => links.remove(state.spare),
        LinkActionText::LinkSpare => links.insert(state.spare, state.target),
        LinkActionText::Replace => if links.contains_key(state.spare) {
            links.insert(state.link, links[state.spare]).remove(state.spare)
        } else {
            links
        },
        _ => links,
    }
}

/// A point in the activations of two sessions that run side by side: the
/// state of each, the step that each asked for last, and the session links.
pub struct Pair {
    pub first: ActivationText,
    pub first_action: LinkActionText,
    pub second: ActivationText,
    pub second_action: LinkActionText,
    pub links: LinkTargets,
}

/// The point that two activations reach from `links` when their steps end as
/// `events` say. Each event names the session whose step it answers (`true`
/// for the first), so the steps of the two may interleave in any way. A step
/// that fails is taken to leave the links as they were.
pub open spec fn side_by_side(
    first: (ActivationText, LinkActionText),
    second: (ActivationText, LinkActionText),
    links: LinkTargets,
    events: Seq<(bool, EventText)>,
) -> Pair
    decreases events.len(),
{
    if events.len() == 0 {
        Pair {
            first: first.0,
            first_action: first.1,
            second: second.0,
            second_action: second.1,
            links,
        }
    } else {
        let before = side_by_side(first, second, links, events.drop_last());
        let (of_first, event) = events.last();
        if of_first {
            let next = link_step(before.first, event);
            Pair {
                first: next.0,
                first_action: next.1,
                links: if event is Failed {
                    before.links
                } else {
                    link_performed(before.links, before.first, before.first_action)
                },
                ..before
            }
        } else {
            let next = link_step(before.second, event);
            Pair {
                second: next.0,
                second_action: next.1,
                links: if event is Failed {
                    before.links
                } else {
                    link_performed(before.links, before.second, before.second_action)
                },
                ..before
            }
        }
    }
}

/// The step that an activation asks for in each phase.
pub open spec fn link_asks(phase: LinkPhase, action: LinkActionText) -> bool {
    match phase {
        LinkPhase::CheckingSpare => action == LinkActionText::CheckSpare,
        LinkPhase::RemovingSpare => action == LinkActionText::RemoveSpare,
        LinkPhase::LinkingSpare => action == LinkActionText::LinkSpare,
        LinkPhase::Replacing => action == LinkActionText::Replace,
        LinkPhase::Finished => action is Finish,
    }
}

/// Whether `now` holds at `link` what `then` held there.
pub open spec fn same_at(now: LinkTargets, then: LinkTargets, link: Seq<char>) -> bool {
    now.contains_key(link) == then.contains_key(link) && (then.contains_key(link) ==> now[link]
        == then[link])
}

/// What holds of one activation at every point, whatever another session
/// does meanwhile: `begun` is how it began, `then` the links at that time.
pub open spec fn kept(
    state: ActivationText,
    action: LinkActionText,
    now: LinkTargets,
    begun: ActivationText,
    then: LinkTargets,
) -> bool {
    &&& state.target == begun.target
    &&& state.link == begun.link
    &&& state.spare == begun.spare
    &&& link_asks(state.phase, action)
    &&& state.phase != LinkPhase::Finished ==> same_at(now, then, state.link)
    &&& begun.phase == LinkPhase::Finished ==> state.phase == LinkPhase::Finished && same_at(
        now,
        then,
        state.link,
    )
    &&& same_at(now, then, state.link) || (now.contains_key(state.link) && now[state.link]
        == state.target)
    &&& state.phase == LinkPhase::Replacing ==> now.contains_key(state.spare) && now[state.spare]
        == state.target
    &&& action == LinkActionText::Finish(Ok(())) ==> now.contains_key(state.link)
        && now[state.link] == state.target
}

/// Two sessions on different devices, each with a terminal and with the
/// directory of session links.
pub open spec fn apart(first: TerminalText, second: TerminalText) -> bool {
    &&& first matches TerminalText::Attached { device: a, link_dir_failure: None }
    &&& second matches TerminalText::Attached { device: b, link_dir_failure: None }
    &&& a != b
}

/// What a session sees once its link points at the install directory of
/// `major`: the version of that major, where it is installed.
pub open spec fn seen(disk: Disk, major: u8) -> Result<Seq<char>, ErrorText> {
    match version_of(disk, major) {
        Some(version) => Ok(version),
        None => Err(bare(ErrorKind::NoCurrentJdk)),
    }
}

/// The name of a link begins with what stands for the first character of the
/// device path.
pub proof fn lemma_link_name_begins(device: Seq<char>)
    requires
        device.len() > 0,
    ensures
        link_name_text(device) == link_code(device[0]) + link_name_text(device.drop_first()),
    decreases device.len(),
{
    let rest = device.drop_first();
    if device.len() == 1 {
        assert(device.drop_last() =~= Seq::<char>::empty());
        assert(rest =~= Seq::<char>::empty());
        assert(link_name_text(device) =~= link_code(device[0]) + link_name_text(rest));
    } else {
        lemma_link_name_begins(device.drop_last());
        assert(device.drop_last().drop_first() =~= rest.drop_last());
        assert(rest.last() == device.last());
        assert(link_name_text(device) =~= link_code(device[0]) + link_name_text(rest));
    }
}

/// The name of a session link holds no separator.
pub proof fn lemma_link_name_is_a_file_name(device: Seq<char>)
    ensures
        forall|i: int|
            0 <= i < link_name_text(device).len() ==> #[trigger] link_name_text(device)[i] != '/',
    decreases device.len(),
{
    if device.len() > 0 {
        lemma_link_name_is_a_file_name(device.drop_last());
        let head = link_name_text(device.drop_last());
        let name = link_name_text(device);
        assert forall|i: int| 0 <= i < name.len() implies #[trigger] name[i] != '/' by {
            if i < head.len() {
                assert(name[i] == head[i]);
            } else {
                assert(name[i] == link_code(device.last())[i - head.len()]);
            }
        }
    }
}

/// Collision freedom. Devices with the same link name are the same device.
pub proof fn lemma_link_name_names_one_device(a: Seq<char>, b: Seq<char>)
    requires
        link_name_text(a) == link_name_text(b),
    ensures
        a == b,
    decreases a.len(),
{
    if a.len() == 0 || b.len() == 0 {
        if a.len() > 0 {
            lemma_link_name_begins(a);
            assert(link_name_text(a).len() > 0);
        }
        if b.len() > 0 {
            lemma_link_name_begins(b);
            assert(link_name_text(b).len() > 0);
        }
        assert(a =~= b);
    } else {
        lemma_link_name_begins(a);
        lemma_link_name_begins(b);
        let name = link_name_text(a);
        let code_a = link_code(a[0]);
        let code_b = link_code(b[0]);
        let rest_a = link_name_text(a.drop_first());
        let rest_b = link_name_text(b.drop_first());
        assert(name[0] == code_a[0] && name[0] == code_b[0]);
        if code_a.len() == 2 {
            assert(name[1] == code_a[1]);
            assert(code_b.len() == 2);
            assert(name[1] == code_b[1]);
        } else {
            assert(code_b.len() == 1);
        }
        assert(a[0] == b[0]);
        assert(rest_a =~= name.subrange(code_a.len() as int, name.len() as int));
        assert(rest_b =~= name.subrange(code_b.len() as int, name.len() as int));
        lemma_link_name_names_one_device(a.drop_first(), b.drop_first());
        assert(a =~= seq![a[0]] + a.drop_first());
        assert(b =~= seq![b[0]] + b.drop_first());
    }
}

/// Different devices have different link names.
pub proof fn lemma_link_names_distinct(a: Seq<char>, b: Seq<char>)
    requires
        a != b,
    ensures
        link_name_text(a) != link_name_text(b),
{
    if link_name_text(a) == link_name_text(b) {
        lemma_link_name_names_one_device(a, b);
    }
}

/// The spare link of a session has the name of no session link.
pub proof fn lemma_spare_name_is_no_link_name(device: Seq<char>, other: Seq<char>)
    ensures
        spare_name_text(device) != link_name_text(other),
{
    let spare = spare_name_text(device);
    assert(spare[0] == '%' && spare[1] == '.');
    if other.len() > 0 {
        lemma_link_name_begins(other);
        let name = link_name_text(other);
        let code = link_code(other[0]);
        assert(name[0] == code[0]);
        if code.len() == 2 {
            assert(name[1] == code[1]);
        }
    }
}

/// Joining different names to one directory gives different paths.
pub proof fn lemma_joined_distinct(dir: Seq<char>, a: Seq<char>, b: Seq<char>)
    requires
        !is_absolute(a),
        !is_absolute(b),
        a != b,
    ensures
        joined(dir, a) != joined(dir, b),
{
    let x = joined(dir, a);
    let y = joined(dir, b);
    let k = x.len() - a.len();
    assert(x.subrange(k, x.len() as int) =~= a);
    if x == y {
        assert(a.len() == b.len());
        assert(y.subrange(k, y.len() as int) =~= b);
    }
}

/// The links and spare links of two sessions that are apart lie at four
/// different paths.
pub proof fn lemma_apart_paths(link_dir: Seq<char>, first: TerminalText, second: TerminalText)
    requires
        apart(first, second),
    ensures
        ({
            let a = session_link(link_dir, first)->Ok_0;
            let b = session_link(link_dir, second)->Ok_0;
            let sa = session_spare(link_dir, first);
            let sb = session_spare(link_dir, second);
            a != b && a != sa && a != sb && b != sa && b != sb && sa != sb
        }),
{
    let da = first->device;
    let db = second->device;
    let na = link_name_text(da);
    let nb = link_name_text(db);
    let sa = spare_name_text(da);
    let sb = spare_name_text(db);
    lemma_link_name_is_a_file_name(da);
    lemma_link_name_is_a_file_name(db);
    lemma_link_names_distinct(da, db);
    lemma_spare_name_is_no_link_name(da, da);
    lemma_spare_name_is_no_link_name(da, db);
    lemma_spare_name_is_no_link_name(db, da);
    lemma_spare_name_is_no_link_name(db, db);
    assert(sa != sb) by {
        if sa == sb {
            assert(sa.subrange(2, sa.len() as int) =~= na);
            assert(sb.subrange(2, sb.len() as int) =~= nb);
        }
    }
    assert(!is_absolute(na)) by {
        if na.len() > 0 {
            assert(na[0] != '/');
        }
    }
    assert(!is_absolute(nb)) by {
        if nb.len() > 0 {
            assert(nb[0] != '/');
        }
    }
    assert(sa[0] == '%' && sb[0] == '%');
    lemma_joined_distinct(link_dir, na, nb);
    lemma_joined_distinct(link_dir, na, sa);
    lemma_joined_distinct(link_dir, na, sb);
    lemma_joined_distinct(link_dir, nb, sa);
    lemma_joined_distinct(link_dir, nb, sb);
    lemma_joined_distinct(link_dir, sa, sb);
}

/// A link that points at the install directory of a major selects that
/// major.
pub proof fn lemma_install_path_selects(root: Seq<char>, major: u8)
    ensures
        linked_major(install_path(root, major)) == Some(major),
{
    let name = dir_name(major);
    lemma_decimal_text_spells(major as nat);
    lemma_dir_names(major, major);
    assert(is_digit(name[0]));
    assert forall|i: int| 0 <= i < name.len() implies name[i] != '/' by {
        assert(is_digit(name[i]));
    }
    assert(name != seq!['.']) by {
        if name == seq!['.'] {
            assert(name[0] == '.');
        }
    }
    assert(name != seq!['.', '.']) by {
        if name == seq!['.', '.'] {
            assert(name[0] == '.');
        }
    }
    lemma_file_name_of_joined(root, name);
}

/// Every point of two activations side by side keeps what holds of each.
pub proof fn lemma_side_by_side_kept(
    link_dir: Seq<char>,
    first: TerminalText,
    first_jdk: Result<Seq<char>, ErrorText>,
    second: TerminalText,
    second_jdk: Result<Seq<char>, ErrorText>,
    links: LinkTargets,
    events: Seq<(bool, EventText)>,
)
    requires
        apart(first, second),
    ensures
        ({
            let a = link_started(first_jdk, link_dir, first);
            let b = link_started(second_jdk, link_dir, second);
            let r = side_by_side(a, b, links, events);
            kept(r.first, r.first_action, r.links, a.0, links) && kept(
                r.second,
                r.second_action,
                r.links,
                b.0,
                links,
            )
        }),
    decreases events.len(),
{
    lemma_apart_paths(link_dir, first, second);
    if events.len() > 0 {
        lemma_side_by_side_kept(
            link_dir,
            first,
            first_jdk,
            second,
            second_jdk,
            links,
            events.drop_last(),
        );
    }
}

/// Session isolation. Two sessions that activate JDKs side by side, their
/// steps interleaved in any way, each observe their own activation: once the
/// activation of a session has succeeded, the session's current JDK is the
/// one it activated, and until the link is replaced the session sees what it
/// saw before, whatever the other session does. The link of a session that
/// had one is never missing. It holds of any two sessions on different
/// devices.
pub proof fn lemma_sessions_are_isolated(
    disk: Disk,
    links: LinkTargets,
    root: Seq<char>,
    link_dir: Seq<char>,
    first: TerminalText,
    first_major: u8,
    second: TerminalText,
    second_major: u8,
    events: Seq<(bool, EventText)>,
)
    requires
        apart(first, second),
    ensures
        ({
            let r = side_by_side(
                link_started(Ok(install_path(root, first_major)), link_dir, first),
                link_started(Ok(install_path(root, second_major)), link_dir, second),
                links,
                events,
            );
            let a = session_link(link_dir, first)->Ok_0;
            let b = session_link(link_dir, second)->Ok_0;
            &&& links.contains_key(a) ==> r.links.contains_key(a)
            &&& links.contains_key(b) ==> r.links.contains_key(b)
            &&& r.first.phase != LinkPhase::Finished ==> current_jdk(disk, r.links, link_dir, first)
                == current_jdk(disk, links, link_dir, first)
            &&& r.second.phase != LinkPhase::Finished ==> current_jdk(
                disk,
                r.links,
                link_dir,
                second,
            ) == current_jdk(disk, links, link_dir, second)
            &&& r.first_action == LinkActionText::Finish(Ok(())) ==> current_jdk(
                disk,
                r.links,
                link_dir,
                first,
            ) == seen(disk, first_major)
            &&& r.second_action == LinkActionText::Finish(Ok(())) ==> current_jdk(
                disk,
                r.links,
                link_dir,
                second,
            ) == seen(disk, second_major)
        }),
{
    lemma_side_by_side_kept(
        link_dir,
        first,
        Ok(install_path(root, first_major)),
        second,
        Ok(install_path(root, second_major)),
        links,
        events,
    );
    lemma_install_path_selects(root, first_major);
    lemma_install_path_selects(root, second_major);
}

/// A failed install leaves the link alone. Where the JDK could not be
/// installed, the activation of the session asks for no step, and the link
/// of the session stays as it was, whatever another session does meanwhile:
/// the session sees the JDK that it saw before.
pub proof fn lemma_failed_install_leaves_link(
    disk: Disk,
    links: LinkTargets,
    link_dir: Seq<char>,
    first: TerminalText,
    failure: ErrorText,
    second: TerminalText,
    second_jdk: Result<Seq<char>, ErrorText>,
    events: Seq<(bool, EventText)>,
)
    requires
        apart(first, second),
    ensures
        link_started(Err(failure), link_dir, first).1 == LinkActionText::Finish(Err(failure)),
        ({
            let r = side_by_side(
                link_started(Err(failure), link_dir, first),
                link_started(second_jdk, link_dir, second),
                links,
                events,
            );
            &&& r.first_action is Finish
            &&& r.first_action != LinkActionText::Finish(Ok(()))
            &&& same_at(r.links, links, session_link(link_dir, first)->Ok_0)
            &&& current_jdk(disk, r.links, link_dir, first) == current_jdk(
                disk,
                links,
                link_dir,
                first,
            )
        }),
{
    lemma_side_by_side_kept(link_dir, first, Err(failure), second, second_jdk, links, events);
    lemma_stopped_stays_stopped(
        link_started(Err(failure), link_dir, first),
        link_started(second_jdk, link_dir, second),
        links,
        events,
    );
}

/// An activation that is over before it has begun never reports success.
pub proof fn lemma_stopped_stays_stopped(
    first: (ActivationText, LinkActionText),
    second: (ActivationText, LinkActionText),
    links: LinkTargets,
    events: Seq<(bool, EventText)>,
)
    requires
        first.0.phase == LinkPhase::Finished,
        first.1 is Finish,
        first.1 != LinkActionText::Finish(Ok(())),
    ensures
        ({
            let r = side_by_side(first, second, links, events);
            &&& r.first.phase == LinkPhase::Finished
            &&& r.first_action is Finish
            &&& r.first_action != LinkActionText::Finish(Ok(()))
        }),
    decreases events.len(),
{
    if events.len() > 0 {
        lemma_stopped_stays_stopped(first, second, links, events.drop_last());
    }
}

} // verus!
