//! Where the sockets of the observed components are.

use crate::environment::{text_value_of, value_of, Environment};
use crate::path::{lossy_text_of, path_lossy_text};
use crate::text::{
    decimal, decimal_text, law_decimal_is_read_back, law_decimal_is_unambiguous,
    lemma_decimal_starts_with_digit, parse_number, parsed_number,
};
use std::path::PathBuf;
use vstd::prelude::*;
use vstd::string::*;

verus! {

/// Names the manager's socket.
pub const MANAGER_SOCKET_VARIABLE: &'static str = "PERSONA_MANAGER_SOCKET_PATH";

/// Says how many peers are described.
pub const PEER_COUNT_VARIABLE: &'static str = "PERSONA_PEER_SOCKET_COUNT";

/// The base in which peers are counted.
pub const PEER_COUNT_RADIX: u32 = 10;

/// Starts the name of each variable that describes a peer; the peer's number follows.
pub const PEER_VARIABLE_PREFIX: &'static str = "PERSONA_PEER_";

/// Ends the name of the variable that says which component a peer is.
pub const PEER_COMPONENT_SUFFIX: &'static str = "_COMPONENT";

/// Ends the name of the variable that says where a peer's socket is.
pub const PEER_SOCKET_SUFFIX: &'static str = "_SOCKET_PATH";

/// The peers that the component takes note of.
#[derive(Debug, Clone, Copy, PartialEq, Eq, Structural)]
pub enum PeerRole {
    Router,
    Terminal,
}

/// The role of a peer by the name of its component. Peers of other names have none.
pub open spec fn role_of(component: Seq<char>) -> Option<PeerRole> {
    if component == "router"@ || component == "persona-router"@ {
        Some(PeerRole::Router)
    } else if component == "terminal"@ || component == "persona-terminal"@ {
        Some(PeerRole::Terminal)
    } else {
        None
    }
}

/// How many peers are described, by the text that says so. No text and a text that is no number
/// both mean none.
pub open spec fn peers_counted(text: Option<Seq<char>>) -> nat {
    match text {
        Some(text) => match parsed_number(text, PEER_COUNT_RADIX as nat, usize::MAX as nat) {
            Some(count) => count,
            None => 0,
        },
        None => 0,
    }
}

/// The name of a variable that describes the peer of a number.
pub open spec fn peer_variable_name(index: nat, suffix: Seq<char>) -> Seq<char> {
    PEER_VARIABLE_PREFIX@ + decimal(index) + suffix
}

/// The role and the socket of the peer of a number. A peer counts only if both its variables are
/// set and its component has a role.
pub open spec fn peer_at(variables: Seq<(Seq<char>, PathBuf)>, index: nat) -> Option<
    (PeerRole, PathBuf),
> {
    match value_of(variables, peer_variable_name(index, PEER_COMPONENT_SUFFIX@)) {
        Some(component) => match value_of(
            variables,
            peer_variable_name(index, PEER_SOCKET_SUFFIX@),
        ) {
            Some(socket) => match role_of(path_lossy_text(component)) {
                Some(role) => Some((role, socket)),
                None => None,
            },
            None => None,
        },
        None => None,
    }
}

/// The socket of the last peer of a role among the first `count`.
pub open spec fn last_peer_socket(
    variables: Seq<(Seq<char>, PathBuf)>,
    count: nat,
    role: PeerRole,
) -> Option<PathBuf>
    decreases count,
{
    if count == 0 {
        None
    } else {
        match peer_at(variables, (count - 1) as nat) {
            Some((found, socket)) if found == role => Some(socket),
            _ => last_peer_socket(variables, (count - 1) as nat, role),
        }
    }
}

/// The directory that a set of environment variables describes.
pub open spec fn directory_of(variables: Seq<(Seq<char>, PathBuf)>) -> TargetSocketDirectory {
    let count = peers_counted(text_value_of(variables, PEER_COUNT_VARIABLE@));
    TargetSocketDirectory {
        manager_socket: value_of(variables, MANAGER_SOCKET_VARIABLE@),
        router_socket: last_peer_socket(variables, count, PeerRole::Router),
        terminal_socket: last_peer_socket(variables, count, PeerRole::Terminal),
    }
}

/// A directory after a peer has been entered.
pub open spec fn with_peer(
    directory: TargetSocketDirectory,
    role: Option<PeerRole>,
    socket: PathBuf,
) -> TargetSocketDirectory {
    match role {
        Some(PeerRole::Router) => TargetSocketDirectory {
            router_socket: Some(socket),
            ..directory
        },
        Some(PeerRole::Terminal) => TargetSocketDirectory {
            terminal_socket: Some(socket),
            ..directory
        },
        None => directory,
    }
}

/// The sockets of the observed components, as far as they are known.
#[derive(Debug, PartialEq, Eq)]
pub struct TargetSocketDirectory {
    pub manager_socket: Option<PathBuf>,
    pub router_socket: Option<PathBuf>,
    pub terminal_socket: Option<PathBuf>,
}

impl Clone for TargetSocketDirectory {
    fn clone(&self) -> (res: Self)
        ensures
            res == *self,
    {
        Self {
            manager_socket: self.manager_socket.clone(),
            router_socket: self.router_socket.clone(),
            terminal_socket: self.terminal_socket.clone(),
        }
    }
}

/// The role of a peer by the name of its component.
pub fn peer_role(component: &String) -> (res: Option<PeerRole>)
    ensures
        res == role_of(component@),
{
    if *component == "router".to_owned() || *component == "persona-router".to_owned() {
        Some(PeerRole::Router)
    } else if *component == "terminal".to_owned() || *component == "persona-terminal".to_owned() {
        Some(PeerRole::Terminal)
    } else {
        None
    }
}

/// How many peers are described, by the text that says so.
pub fn peer_count(text: Option<String>) -> (res: usize)
    ensures
        text matches Some(text) ==> res == peers_counted(Some(text@)),
        text is None ==> res == peers_counted(None),
{
    match text {
        Some(text) => match parse_number(&text, PEER_COUNT_RADIX, usize::MAX as u64) {
            Some(count) => count as usize,
            None => 0,
        },
        None => 0,
    }
}

/// The name of a variable that describes the peer of a number.
fn peer_variable(index: usize, suffix: &str) -> (res: String)
    ensures
        res@ == peer_variable_name(index as nat, suffix@),
{
    PEER_VARIABLE_PREFIX.to_owned().concat(decimal_text(index).as_str()).concat(suffix)
}

impl TargetSocketDirectory {
    /// The directory that knows no socket.
    pub fn empty() -> (res: Self)
        ensures
            res == (TargetSocketDirectory {
                manager_socket: None,
                router_socket: None,
                terminal_socket: None,
            }),
    {
        Self { manager_socket: None, router_socket: None, terminal_socket: None }
    }

    /// Enters the socket of a peer, by the name of its component. A peer whose component has no
    /// role leaves the directory as it is.
    pub fn enter_peer(&mut self, component: &String, socket: PathBuf)
        ensures
            *final(self) == with_peer(*old(self), role_of(component@), socket),
    {
        match peer_role(component) {
            Some(PeerRole::Router) => {
                self.router_socket = Some(socket);
            },
            Some(PeerRole::Terminal) => {
                self.terminal_socket = Some(socket);
            },
            None => {},
        }
    }

    /// The directory that the environment describes: the manager's socket, and those of the
    /// router and the terminal among the numbered peers. Of several peers of one role the last
    /// counts.
    pub fn from_environment(environment: &Environment) -> (res: Self)
        ensures
            res == directory_of(environment@),
    {
        let mut directory = Self {
            manager_socket: environment.value(&MANAGER_SOCKET_VARIABLE.to_owned()),
            router_socket: None,
            terminal_socket: None,
        };
        let count: usize = peer_count(environment.text(&PEER_COUNT_VARIABLE.to_owned()));
        let mut index: usize = 0;
        while index < count
            invariant
                index <= count,
                directory == (TargetSocketDirectory {
                    manager_socket: value_of(environment@, MANAGER_SOCKET_VARIABLE@),
                    router_socket: last_peer_socket(environment@, index as nat, PeerRole::Router),
                    terminal_socket: last_peer_socket(
                        environment@,
                        index as nat,
                        PeerRole::Terminal,
                    ),
                }),
            decreases count - index,
        {
            if let Some(component) = environment.value(
                &peer_variable(index, PEER_COMPONENT_SUFFIX),
            ) {
                if let Some(socket) = environment.value(&peer_variable(index, PEER_SOCKET_SUFFIX)) {
                    directory.enter_peer(&lossy_text_of(&component), socket);
                }
            }
            index = index + 1;
        }
        directory
    }
}

/// Of several peers of one role the last counts.
pub proof fn law_last_peer_counts(
    variables: Seq<(Seq<char>, PathBuf)>,
    count: nat,
    role: PeerRole,
    index: nat,
    socket: PathBuf,
)
    requires
        index < count,
        peer_at(variables, index) == Some((role, socket)),
        forall|later: nat|
            index < later < count ==> !(#[trigger] peer_at(variables, later) matches Some(peer)
                && peer.0 == role),
    ensures
        last_peer_socket(variables, count, role) == Some(socket),
    decreases count,
{
    if index + 1 < count {
        let last = (count - 1) as nat;
        assert(!(peer_at(variables, last) matches Some(peer) && peer.0 == role));
        law_last_peer_counts(variables, last, role, index, socket);
    }
}

/// No socket is known for a role that no peer has.
pub proof fn law_absent_peer_has_no_socket(
    variables: Seq<(Seq<char>, PathBuf)>,
    count: nat,
    role: PeerRole,
)
    requires
        forall|index: nat|
            index < count ==> !(#[trigger] peer_at(variables, index) matches Some(peer) && peer.0
                == role),
    ensures
        last_peer_socket(variables, count, role) is None,
    decreases count,
{
    if count > 0 {
        let last = (count - 1) as nat;
        assert(!(peer_at(variables, last) matches Some(peer) && peer.0 == role));
        law_absent_peer_has_no_socket(variables, last, role);
    }
}

/// An environment without variables describes the directory that knows no socket.
pub proof fn law_empty_environment_describes_nothing()
    ensures
        directory_of(Seq::empty()) == (TargetSocketDirectory {
            manager_socket: None,
            router_socket: None,
            terminal_socket: None,
        }),
{
}

/// Peers count only as far as the environment says how many there are: if it does not say so in a
/// number, none counts.
pub proof fn law_uncounted_peers_are_ignored(variables: Seq<(Seq<char>, PathBuf)>)
    requires
        match text_value_of(variables, PEER_COUNT_VARIABLE@) {
            Some(text) => parsed_number(text, PEER_COUNT_RADIX as nat, usize::MAX as nat) is None,
            None => true,
        },
    ensures
        directory_of(variables).router_socket is None,
        directory_of(variables).terminal_socket is None,
{
}

/// Peers of different roles may be entered in either order.
pub proof fn law_roles_are_independent(
    directory: TargetSocketDirectory,
    router: PathBuf,
    terminal: PathBuf,
)
    ensures
        with_peer(
            with_peer(directory, Some(PeerRole::Router), router),
            Some(PeerRole::Terminal),
            terminal,
        ) == with_peer(
            with_peer(directory, Some(PeerRole::Terminal), terminal),
            Some(PeerRole::Router),
            router,
        ),
{
}

/// A peer replaces an earlier one of its role, and no peer changes the manager's socket.
pub proof fn law_peer_replaces_its_predecessor(
    directory: TargetSocketDirectory,
    role: Option<PeerRole>,
    earlier: PathBuf,
    later: PathBuf,
)
    ensures
        with_peer(with_peer(directory, role, earlier), role, later) == with_peer(
            directory,
            role,
            later,
        ),
        with_peer(directory, role, later).manager_socket == directory.manager_socket,
{
}

/// The variables of different peers have different names.
pub proof fn law_peers_have_their_own_variables(left: nat, right: nat, suffix: Seq<char>)
    requires
        peer_variable_name(left, suffix) == peer_variable_name(right, suffix),
    ensures
        left == right,
{
    let prefix = PEER_VARIABLE_PREFIX@;
    let name = peer_variable_name(left, suffix);
    let end = name.len() - suffix.len();
    assert(name.subrange(prefix.len() as int, end) == decimal(left));
    assert(name.subrange(prefix.len() as int, end) == decimal(right));
    law_decimal_is_unambiguous(left, right);
}

/// The variable that names a component is never one that names a socket.
pub proof fn law_component_and_socket_variables_differ(left: nat, right: nat)
    ensures
        peer_variable_name(left, PEER_COMPONENT_SUFFIX@) != peer_variable_name(
            right,
            PEER_SOCKET_SUFFIX@,
        ),
{
    reveal_strlit("_COMPONENT");
    reveal_strlit("_SOCKET_PATH");
    assert(peer_variable_name(left, PEER_COMPONENT_SUFFIX@).last() == 'T');
    assert(peer_variable_name(right, PEER_SOCKET_SUFFIX@).last() == 'H');
}

/// The variable that says how many peers there are describes none of them.
pub proof fn law_count_variable_describes_no_peer(index: nat, suffix: Seq<char>)
    ensures
        peer_variable_name(index, suffix) != PEER_COUNT_VARIABLE@,
{
    reveal_strlit("PERSONA_PEER_");
    reveal_strlit("PERSONA_PEER_SOCKET_COUNT");
    lemma_decimal_starts_with_digit(index);
    let position = PEER_VARIABLE_PREFIX@.len() as int;
    assert(peer_variable_name(index, suffix)[position] == decimal(index)[0]);
    assert(PEER_COUNT_VARIABLE@[position] == 'S');
}

/// No name is both that of a router and that of a terminal.
proof fn lemma_names_of_roles_differ()
    ensures
        "router"@ != "terminal"@,
        "router"@ != "persona-terminal"@,
        "persona-router"@ != "terminal"@,
        "persona-router"@ != "persona-terminal"@,
{
    reveal_strlit("router");
    reveal_strlit("persona-router");
    reveal_strlit("terminal");
    reveal_strlit("persona-terminal");
    assert("router"@[0] == 'r');
    assert("persona-router"@[0] == 'p');
    assert("terminal"@[0] == 't');
    assert("persona-router"@.len() == 14);
    assert("persona-terminal"@.len() == 16);
}

/// The router that is known is the last of the peers that count, and the peers that count are those
/// numbered below the count that the environment gives in decimal: a peer below it that names the
/// router as its component and has a socket is the one whose socket is known, if no later peer
/// below it does so.
pub proof fn law_last_counted_router_is_known(
    environment: &Environment,
    directory: TargetSocketDirectory,
    count: nat,
    index: nat,
    component: PathBuf,
    socket: PathBuf,
)
    requires
        call_ensures(TargetSocketDirectory::from_environment, (environment,), directory),
        count <= usize::MAX,
        text_value_of(environment@, "PERSONA_PEER_SOCKET_COUNT"@) == Some(decimal(count)),
        index < count,
        value_of(environment@, "PERSONA_PEER_"@ + decimal(index) + "_COMPONENT"@) == Some(
            component,
        ),
        path_lossy_text(component) == "router"@ || path_lossy_text(component) == "persona-router"@,
        value_of(environment@, "PERSONA_PEER_"@ + decimal(index) + "_SOCKET_PATH"@) == Some(socket),
        forall|later: nat| #![trigger decimal(later)]
            index < later < count ==> {
                ||| value_of(
                    environment@,
                    "PERSONA_PEER_"@ + decimal(later) + "_SOCKET_PATH"@,
                ) is None
                ||| !(value_of(
                    environment@,
                    "PERSONA_PEER_"@ + decimal(later) + "_COMPONENT"@,
                ) matches Some(other) && (path_lossy_text(other) == "router"@ || path_lossy_text(
                    other,
                ) == "persona-router"@))
            },
    ensures
        directory.router_socket == Some(socket),
{
    law_decimal_is_read_back(count, usize::MAX as nat);
    lemma_names_of_roles_differ();
    assert(peer_at(environment@, index) == Some((PeerRole::Router, socket)));
    assert forall|later: nat| index < later < count implies !(#[trigger] peer_at(
        environment@,
        later,
    ) matches Some(peer) && peer.0 == PeerRole::Router) by {
    }
    law_last_peer_counts(environment@, count, PeerRole::Router, index, socket);
}

/// No router is known if none of the peers below the count that the environment gives in decimal
/// both names it as its component and has a socket.
pub proof fn law_uncounted_router_is_unknown(
    environment: &Environment,
    directory: TargetSocketDirectory,
    count: nat,
)
    requires
        call_ensures(TargetSocketDirectory::from_environment, (environment,), directory),
        count <= usize::MAX,
        text_value_of(environment@, "PERSONA_PEER_SOCKET_COUNT"@) == Some(decimal(count)),
        forall|index: nat| #![trigger decimal(index)]
            index < count ==> {
                ||| value_of(
                    environment@,
                    "PERSONA_PEER_"@ + decimal(index) + "_SOCKET_PATH"@,
                ) is None
                ||| !(value_of(
                    environment@,
                    "PERSONA_PEER_"@ + decimal(index) + "_COMPONENT"@,
                ) matches Some(other) && (path_lossy_text(other) == "router"@ || path_lossy_text(
                    other,
                ) == "persona-router"@))
            },
    ensures
        directory.router_socket is None,
{
    law_decimal_is_read_back(count, usize::MAX as nat);
    lemma_names_of_roles_differ();
    assert forall|index: nat| index < count implies !(#[trigger] peer_at(
        environment@,
        index,
    ) matches Some(peer) && peer.0 == PeerRole::Router) by {
    }
    law_absent_peer_has_no_socket(environment@, count, PeerRole::Router);
}

/// The terminal that is known is the last of the peers that count, and the peers that count are
/// those numbered below the count that the environment gives in decimal: a peer below it that
/// names the terminal as its component and has a socket is the one whose socket is known, if no
/// later peer below it does so.
pub proof fn law_last_counted_terminal_is_known(
    environment: &Environment,
    directory: TargetSocketDirectory,
    count: nat,
    index: nat,
    component: PathBuf,
    socket: PathBuf,
)
    requires
        call_ensures(TargetSocketDirectory::from_environment, (environment,), directory),
        count <= usize::MAX,
        text_value_of(environment@, "PERSONA_PEER_SOCKET_COUNT"@) == Some(decimal(count)),
        index < count,
        value_of(environment@, "PERSONA_PEER_"@ + decimal(index) + "_COMPONENT"@) == Some(
            component,
        ),
        path_lossy_text(component) == "terminal"@ || path_lossy_text(component)
            == "persona-terminal"@,
        value_of(environment@, "PERSONA_PEER_"@ + decimal(index) + "_SOCKET_PATH"@) == Some(socket),
        forall|later: nat| #![trigger decimal(later)]
            index < later < count ==> {
                ||| value_of(
                    environment@,
                    "PERSONA_PEER_"@ + decimal(later) + "_SOCKET_PATH"@,
                ) is None
                ||| !(value_of(
                    environment@,
                    "PERSONA_PEER_"@ + decimal(later) + "_COMPONENT"@,
                ) matches Some(other) && (path_lossy_text(other) == "terminal"@ || path_lossy_text(
                    other,
                ) == "persona-terminal"@))
            },
    ensures
        directory.terminal_socket == Some(socket),
{
    law_decimal_is_read_back(count, usize::MAX as nat);
    lemma_names_of_roles_differ();
    assert(peer_at(environment@, index) == Some((PeerRole::Terminal, socket)));
    assert forall|later: nat| index < later < count implies !(#[trigger] peer_at(
        environment@,
        later,
    ) matches Some(peer) && peer.0 == PeerRole::Terminal) by {
    }
    law_last_peer_counts(environment@, count, PeerRole::Terminal, index, socket);
}

/// No terminal is known if none of the peers below the count that the environment gives in decimal
/// both names it as its component and has a socket.
pub proof fn law_uncounted_terminal_is_unknown(
    environment: &Environment,
    directory: TargetSocketDirectory,
    count: nat,
)
    requires
        call_ensures(TargetSocketDirectory::from_environment, (environment,), directory),
        count <= usize::MAX,
        text_value_of(environment@, "PERSONA_PEER_SOCKET_COUNT"@) == Some(decimal(count)),
        forall|index: nat| #![trigger decimal(index)]
            index < count ==> {
                ||| value_of(
                    environment@,
                    "PERSONA_PEER_"@ + decimal(index) + "_SOCKET_PATH"@,
                ) is None
                ||| !(value_of(
                    environment@,
                    "PERSONA_PEER_"@ + decimal(index) + "_COMPONENT"@,
                ) matches Some(other) && (path_lossy_text(other) == "terminal"@ || path_lossy_text(
                    other,
                ) == "persona-terminal"@))
            },
    ensures
        directory.terminal_socket is None,
{
    law_decimal_is_read_back(count, usize::MAX as nat);
    lemma_names_of_roles_differ();
    assert forall|index: nat| index < count implies !(#[trigger] peer_at(
        environment@,
        index,
    ) matches Some(peer) && peer.0 == PeerRole::Terminal) by {
    }
    law_absent_peer_has_no_socket(environment@, count, PeerRole::Terminal);
}

/// How many peers count depends only on the number that the environment gives for them, not on how
/// it is written: two environments that agree on every other variable, and whose counts are read
/// as the same number, describe the same directory. A count that is no number is like none.
pub proof fn law_count_goes_by_its_number(
    environment: &Environment,
    other: &Environment,
    text: &String,
    other_text: Option<String>,
    read: Option<u64>,
    other_read: Option<u64>,
    directory: TargetSocketDirectory,
    other_directory: TargetSocketDirectory,
)
    requires
        call_ensures(TargetSocketDirectory::from_environment, (environment,), directory),
        call_ensures(TargetSocketDirectory::from_environment, (other,), other_directory),
        text_value_of(environment@, "PERSONA_PEER_SOCKET_COUNT"@) == Some(text@),
        call_ensures(parse_number, (text, 10u32, usize::MAX as u64), read),
        match other_text {
            Some(other_text) => {
                &&& text_value_of(other@, "PERSONA_PEER_SOCKET_COUNT"@) == Some(other_text@)
                &&& call_ensures(
                    parse_number,
                    (&other_text, 10u32, usize::MAX as u64),
                    other_read,
                )
            },
            None => text_value_of(other@, "PERSONA_PEER_SOCKET_COUNT"@) is None && other_read
                is None,
        },
        read == other_read,
        forall|name: Seq<char>|
            name != "PERSONA_PEER_SOCKET_COUNT"@ ==> #[trigger] value_of(environment@, name)
                == value_of(other@, name),
    ensures
        directory == other_directory,
{
    reveal_strlit("PERSONA_PEER_SOCKET_COUNT");
    reveal_strlit("PERSONA_MANAGER_SOCKET_PATH");
    assert("PERSONA_PEER_SOCKET_COUNT"@.len() == 25);
    assert("PERSONA_MANAGER_SOCKET_PATH"@.len() == 27);
    assert forall|index: nat| #[trigger] peer_at(environment@, index) == peer_at(
        other@,
        index,
    ) by {
        law_count_variable_describes_no_peer(index, PEER_COMPONENT_SUFFIX@);
        law_count_variable_describes_no_peer(index, PEER_SOCKET_SUFFIX@);
    }
    let count = match read {
        Some(count) => count as nat,
        None => 0,
    };
    lemma_same_peers_give_the_same_socket(environment@, other@, count, PeerRole::Router);
    lemma_same_peers_give_the_same_socket(environment@, other@, count, PeerRole::Terminal);
}

/// The socket of a role depends on the peers alone.
proof fn lemma_same_peers_give_the_same_socket(
    variables: Seq<(Seq<char>, PathBuf)>,
    others: Seq<(Seq<char>, PathBuf)>,
    count: nat,
    role: PeerRole,
)
    requires
        forall|index: nat| #[trigger] peer_at(variables, index) == peer_at(others, index),
    ensures
        last_peer_socket(variables, count, role) == last_peer_socket(others, count, role),
    decreases count,
{
    if count > 0 {
        assert(peer_at(variables, (count - 1) as nat) == peer_at(others, (count - 1) as nat));
        lemma_same_peers_give_the_same_socket(variables, others, (count - 1) as nat, role);
    }
}

/// Without a count, or with one that is read as no number, neither a router nor a terminal is
/// known, whatever describes them. The manager's socket is the value of its own variable, whatever
/// the peers are.
pub proof fn law_directory_without_a_count_knows_the_manager_alone(
    environment: &Environment,
    text: Option<String>,
    read: Option<u64>,
    directory: TargetSocketDirectory,
)
    requires
        call_ensures(TargetSocketDirectory::from_environment, (environment,), directory),
        match text {
            Some(text) => {
                &&& text_value_of(environment@, "PERSONA_PEER_SOCKET_COUNT"@) == Some(text@)
                &&& call_ensures(parse_number, (&text, 10u32, usize::MAX as u64), read)
            },
            None => text_value_of(environment@, "PERSONA_PEER_SOCKET_COUNT"@) is None && read
                is None,
        },
    ensures
        directory.manager_socket == value_of(environment@, "PERSONA_MANAGER_SOCKET_PATH"@),
        read is None ==> directory.router_socket is None && directory.terminal_socket is None,
{
}

/// The number of peers is the number that the text is read as, and none without one.
pub proof fn law_count_is_the_number_in_the_text(
    text: String,
    read: Option<u64>,
    count: usize,
    without: usize,
)
    requires
        call_ensures(peer_count, (Some(text),), count),
        call_ensures(parse_number, (&text, 10u32, usize::MAX as u64), read),
        call_ensures(peer_count, (None,), without),
    ensures
        count == (match read {
            Some(number) => number as int,
            None => 0,
        }),
        without == 0,
{
}

/// Two names make a router, two a terminal, and no other name makes either.
pub proof fn law_role_goes_by_the_name(component: &String, role: Option<PeerRole>)
    requires
        call_ensures(peer_role, (component,), role),
    ensures
        role == Some(PeerRole::Router) <==> component@ == "router"@ || component@
            == "persona-router"@,
        role == Some(PeerRole::Terminal) <==> component@ == "terminal"@ || component@
            == "persona-terminal"@,
{
    lemma_names_of_roles_differ();
}

/// A peer that is entered changes the socket of its own role, to the one that it has, and no other
/// socket; one of any other name changes nothing.
pub proof fn law_entered_peer_changes_its_role_alone(
    directory: &mut TargetSocketDirectory,
    component: &String,
    socket: PathBuf,
)
    requires
        call_ensures(TargetSocketDirectory::enter_peer, (directory, component, socket), ()),
    ensures
        final(directory).manager_socket == old(directory).manager_socket,
        final(directory).router_socket == (if component@ == "router"@ || component@
            == "persona-router"@ {
            Some(socket)
        } else {
            old(directory).router_socket
        }),
        final(directory).terminal_socket == (if component@ == "terminal"@ || component@
            == "persona-terminal"@ {
            Some(socket)
        } else {
            old(directory).terminal_socket
        }),
{
    lemma_names_of_roles_differ();
}

/// An empty directory knows no socket, and a copy knows those that the directory knows.
pub proof fn law_copied_directory_knows_the_same(
    empty: TargetSocketDirectory,
    directory: TargetSocketDirectory,
    copy: TargetSocketDirectory,
)
    requires
        call_ensures(TargetSocketDirectory::empty, (), empty),
        call_ensures(<TargetSocketDirectory as Clone>::clone, (&directory,), copy),
    ensures
        empty.manager_socket is None && empty.router_socket is None && empty.terminal_socket
            is None,
        copy.manager_socket == directory.manager_socket,
        copy.router_socket == directory.router_socket,
        copy.terminal_socket == directory.terminal_socket,
{
}

} // verus!
