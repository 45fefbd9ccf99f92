use vstd::prelude::*;
use crate::text::{
    begins_with, has_prefix, join_with, joined_with, owned, pieces_of, split_at_char, texts, trim_end, trim_start,
    trimmed,
};
use crate::network::Network;

verus! {

/// Whether a line of a daemon-argument error begins its usage or help part.
pub open spec fn is_help_line(l: Seq<char>) -> bool {
    begins_with(l, "For more info"@) || begins_with(l, "Usage:"@)
}

/// The lines before the first usage or help line.
pub open spec fn lines_before_help(ls: Seq<Seq<char>>) -> Seq<Seq<char>>
    decreases ls.len(),
{
    if ls.len() == 0 {
        ls
    } else if is_help_line(ls[0]) {
        Seq::empty()
    } else {
        seq![ls[0]] + lines_before_help(ls.drop_first())
    }
}

/// The message the node settings show for custom daemon arguments that do
/// not parse: the parser's message up to its usage or help part, trimmed.
pub open spec fn daemon_error_text(help: Seq<char>) -> Seq<char> {
    trim_end(trim_start(joined_with(lines_before_help(pieces_of(help, '\n')), '\n')))
}

/// The words the custom daemon arguments are parsed as: the program name
/// `kaspad` and the trimmed arguments, cut at every space.
pub open spec fn daemon_arg_words(args: Seq<char>) -> Seq<Seq<char>> {
    pieces_of(trim_end(trim_start("kaspad "@ + trim_end(trim_start(args)))), ' ')
}

proof fn lemma_lines_before_help(ls: Seq<Seq<char>>, idx: int)
    requires
        0 <= idx <= ls.len(),
        forall|k: int| 0 <= k < idx ==> !is_help_line(#[trigger] ls[k]),
        idx == ls.len() || is_help_line(ls[idx]),
    ensures
        lines_before_help(ls) == ls.take(idx),
    decreases idx,
{
    if idx == 0 {
        if ls.len() > 0 {
            assert(is_help_line(ls[0]));
        }
        assert(ls.take(0) =~= Seq::<Seq<char>>::empty());
    } else {
        let rest = ls.drop_first();
        assert forall|k: int| 0 <= k < idx - 1 implies !is_help_line(#[trigger] rest[k]) by {
            assert(rest[k] == ls[k + 1]);
        }
        if idx < ls.len() {
            assert(rest[idx - 1] == ls[idx]);
        }
        lemma_lines_before_help(rest, idx - 1);
        assert(!is_help_line(ls[0]));
        assert(seq![ls[0]] + rest.take(idx - 1) =~= ls.take(idx));
    }
}

/// The message shown for custom daemon arguments the parser refused, given
/// the parser's message.
pub fn daemon_args_error(help: &str) -> (r: String)
    ensures
        r@ == daemon_error_text(help@),
{
    let lines = split_at_char(help, '\n');
    let ghost ls = texts(lines@);
    let mut idx: usize = 0;
    while idx < lines.len() && !(has_prefix(lines[idx].as_str(), "For more info") || has_prefix(lines[idx].as_str(), "Usage:"))
        invariant
            idx <= lines@.len(),
            ls == texts(lines@),
            forall|k: int| 0 <= k < idx ==> !is_help_line(#[trigger] ls[k]),
        decreases lines@.len() - idx,
    {
        proof {
            assert(ls[idx as int] == lines@[idx as int]@);
        }
        idx = idx + 1;
    }
    proof {
        if idx < lines@.len() {
            assert(ls[idx as int] == lines@[idx as int]@);
        }
        lemma_lines_before_help(ls, idx as int);
    }
    let mut kept: Vec<String> = Vec::new();
    let mut k: usize = 0;
    while k < idx
        invariant
            k <= idx <= lines@.len(),
            ls == texts(lines@),
            texts(kept@) == ls.take(k as int),
        decreases idx - k,
    {
        let ghost before = kept@;
        kept.push(lines[k].clone());
        proof {
            assert(texts(kept@) =~= texts(before).push(lines@[k as int]@));
            assert(ls.take(k + 1) =~= ls.take(k as int).push(ls[k as int]));
        }
        k = k + 1;
    }
    let joined = join_with(&kept, '\n');
    trimmed(joined.as_str())
}

/// The words the custom daemon arguments are handed to the parser as.
pub fn daemon_arg_list(args: &str) -> (r: Vec<String>)
    ensures
        texts(r@) == daemon_arg_words(args@),
{
    let t = trimmed(args);
    let mut line = owned("kaspad ");
    line.append(t.as_str());
    let line = trimmed(line.as_str());
    split_at_char(line.as_str(), ' ')
}

/// The node settings the settings page edits, as far as its decisions read
/// them: the network the node runs on.
#[derive(Clone, Copy, Debug, PartialEq, Eq, Structural)]
pub struct NodeSettings {
    pub network: Network,
}

/// The application settings the settings page edits.
#[derive(Clone, Copy, Debug, PartialEq, Eq, Structural)]
pub struct AppSettings {
    pub node: NodeSettings,
}

/// The settings a fresh application starts with: the main network.
pub open spec fn default_settings() -> AppSettings {
    AppSettings { node: NodeSettings { network: Network::Mainnet } }
}

/// The answer given with the page's confirmation buttons.
#[derive(Clone, Copy, Debug, PartialEq, Eq, Structural)]
pub enum Response {
    Apply,
    Cancel,
}

/// What the node-settings part of the page asks for after a frame.
#[derive(Clone, Copy, Debug, PartialEq, Eq, Structural)]
pub enum NodeAction {
    Nothing,
    /// Put the stored node settings back into the page.
    RevertNode,
    /// Put all the stored settings back into the page.
    RevertAll,
    /// Store the page's settings, restarting the node services when the
    /// change needs it.
    Store { restart: bool },
}

/// The node-settings decision: while the page shows an error only Cancel
/// is offered, and it puts the stored node settings back; otherwise, while
/// the page differs from the stored settings (`change`, which says whether
/// the difference needs a restart), Apply stores them and Cancel puts all
/// the stored settings back; nothing else happens.
pub open spec fn node_action(error: bool, change: Option<bool>, response: Option<Response>) -> NodeAction {
    if error {
        if response == Some(Response::Cancel) { NodeAction::RevertNode } else { NodeAction::Nothing }
    } else {
        match (change, response) {
            (Some(restart), Some(Response::Apply)) => NodeAction::Store { restart },
            (Some(_), Some(Response::Cancel)) => NodeAction::RevertAll,
            _ => NodeAction::Nothing,
        }
    }
}

/// Decides what the node-settings part of the page asks for, given whether
/// it shows an error, how the page differs from the stored settings, and
/// the button pressed, if any.
pub fn node_settings_step(error: bool, change: Option<bool>, response: Option<Response>) -> (r: NodeAction)
    ensures
        r == node_action(error, change, response),
{
    if error {
        match response {
            Some(Response::Cancel) => NodeAction::RevertNode,
            _ => NodeAction::Nothing,
        }
    } else {
        match (change, response) {
            (Some(restart), Some(Response::Apply)) => NodeAction::Store { restart },
            (Some(_), Some(Response::Cancel)) => NodeAction::RevertAll,
            _ => NodeAction::Nothing,
        }
    }
}

/// The page's settings after its decision, given the stored ones.
pub open spec fn settled(page: AppSettings, stored: AppSettings, a: NodeAction) -> AppSettings {
    match a {
        NodeAction::RevertNode => AppSettings { node: stored.node, ..page },
        NodeAction::RevertAll => stored,
        _ => page,
    }
}

/// How the wallet finds the node it connects to remotely.
#[derive(Clone, Copy, Debug, PartialEq, Eq, Structural)]
pub enum ConnectionKind {
    /// A wRPC URL the user enters.
    Custom,
    /// A public server the user picks.
    PublicServerCustom,
    /// A public server picked at random on startup.
    PublicServerRandom,
}

/// The error the remote-node settings report: an entered wRPC URL that does
/// not parse, for a custom connection only.
pub open spec fn remote_settings_error(r: Option<&'static str>, kind: ConnectionKind, url_parse_failed: bool) -> bool {
    if kind == ConnectionKind::Custom && url_parse_failed {
        r matches Some(t) && t@ == "Invalid wRPC URL"@
    } else {
        r is None
    }
}

/// The settings page: the settings it edits, apart from those the
/// application stores.
pub struct Settings {
    pub settings: AppSettings,
    pub reset_settings: bool,
}

impl Settings {
    /// A page holding the default settings.
    pub fn new() -> (r: Self)
        ensures
            r.settings == default_settings(),
            !r.reset_settings,
    {
        Settings { settings: AppSettings { node: NodeSettings { network: Network::Mainnet } }, reset_settings: false }
    }

    /// The remote-node part of the page: the error it reports, given the
    /// kind of connection and whether the entered wRPC URL failed to parse
    /// (the parse is `kaspa_wrpc_client`'s, made by the application).
    pub fn render_remote_settings(kind: ConnectionKind, url_parse_failed: bool) -> (r: Option<&'static str>)
        ensures
            remote_settings_error(r, kind, url_parse_failed),
    {
        match kind {
            ConnectionKind::Custom => if url_parse_failed { Some("Invalid wRPC URL") } else { None },
            _ => None,
        }
    }

    /// Takes the application's settings into the page.
    pub fn load(&mut self, settings: AppSettings)
        ensures
            final(self).settings == settings,
            final(self).reset_settings == old(self).reset_settings,
    {
        self.settings = settings;
    }

    /// Sets the network the page's node settings name.
    pub fn change_current_network(&mut self, network: Network)
        ensures
            final(self).settings == (AppSettings { node: NodeSettings { network, ..old(self).settings.node }, ..old(self).settings }),
            final(self).reset_settings == old(self).reset_settings,
    {
        self.settings.node.network = network;
    }

    /// Applies the node-settings decision to the page: puts back stored
    /// settings when it says so, and says what the application does.
    pub fn settle_node_settings(&mut self, stored: AppSettings, error: bool, change: Option<bool>, response: Option<Response>) -> (r: NodeAction)
        ensures
            r == node_action(error, change, response),
            final(self).settings == settled(old(self).settings, stored, r),
            final(self).reset_settings == old(self).reset_settings,
    {
        let a = node_settings_step(error, change, response);
        match a {
            NodeAction::RevertNode => {
                self.settings.node = stored.node;
            },
            NodeAction::RevertAll => {
                self.settings = stored;
            },
            _ => {},
        }
        a
    }
}

/// Apply never loses the page's settings and Cancel never keeps a change:
/// after a decision the page either holds what is stored, or holds what it
/// held and is asked to store it, or nothing was decided.
pub proof fn lemma_settle_outcomes(page: AppSettings, stored: AppSettings, error: bool, change: Option<bool>, response: Option<Response>)
    ensures
        response is None ==> node_action(error, change, response) == NodeAction::Nothing,
        node_action(error, change, response) is Store ==> !error && change is Some
            && settled(page, stored, node_action(error, change, response)) == page,
        (!error && change is Some && response == Some(Response::Cancel))
            ==> settled(page, stored, node_action(error, change, response)) == stored,
        (error && response == Some(Response::Cancel))
            ==> settled(page, stored, node_action(error, change, response)).node == stored.node,
{
}

} // verus!
