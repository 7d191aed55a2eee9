//! Changing the clients of a VPN portal.

use crate::error::{parse_instance_id, GuiError};
use crate::instance_id::parsed_uuid;
use crate::text::same_text;
use vstd::prelude::*;

verus! {

/// How the clients of a portal change.
#[derive(Debug, Clone, Copy, PartialEq, Eq, Structural)]
pub enum ConfigPatchAction {
    Add,
    Remove,
    Clear,
}

/// A client of a portal.
#[derive(Debug)]
pub struct VpnPortalClientConfig {
    pub name: String,
    pub virtual_ip: String,
    pub groups: Vec<String>,
}

/// What a [`VpnPortalClientConfig`] holds.
pub struct VpnPortalClientConfigView {
    pub name: Seq<char>,
    pub virtual_ip: Seq<char>,
    pub groups: Seq<String>,
}

impl View for VpnPortalClientConfig {
    type V = VpnPortalClientConfigView;

    open spec fn view(&self) -> VpnPortalClientConfigView {
        VpnPortalClientConfigView {
            name: self.name@,
            virtual_ip: self.virtual_ip@,
            groups: self.groups@,
        }
    }
}

/// A change of the clients of the portal of the instance `id`.
#[derive(Debug)]
pub struct VpnPortalClientPatch {
    pub id: u128,
    pub action: ConfigPatchAction,
    /// The client that the change is about, if it is about a single one.
    pub client: Option<VpnPortalClientConfig>,
}

/// The action that a name stands for.
pub open spec fn named_action(name: Seq<char>) -> Option<ConfigPatchAction> {
    if name == "add"@ {
        Some(ConfigPatchAction::Add)
    } else if name == "remove"@ {
        Some(ConfigPatchAction::Remove)
    } else if name == "clear"@ {
        Some(ConfigPatchAction::Clear)
    } else {
        None
    }
}

/// A text that may be missing, where a missing one is empty.
pub open spec fn text_or_empty(text: Option<String>) -> Seq<char> {
    match text {
        Some(text) => text@,
        None => Seq::empty(),
    }
}

/// The action that a name stands for.
fn read_action(name: &str) -> (r: Option<ConfigPatchAction>)
    ensures
        r == named_action(name@),
{
    if same_text(name, "add") {
        Some(ConfigPatchAction::Add)
    } else if same_text(name, "remove") {
        Some(ConfigPatchAction::Remove)
    } else if same_text(name, "clear") {
        Some(ConfigPatchAction::Clear)
    } else {
        None
    }
}

/// A text that may be missing, where a missing one is empty.
fn or_empty(text: Option<String>) -> (r: String)
    ensures
        r@ == text_or_empty(text),
{
    match text {
        Some(text) => text,
        None => {
            proof {
                reveal_strlit("");
                assert(""@ =~= Seq::<char>::empty());
            }
            "".to_string()
        },
    }
}

/// The change that a request asks for. What the request leaves out of the client
/// is empty; clearing is about no single client.
pub fn patch_vpn_portal_clients(
    instance_id: &str,
    action: &str,
    name: Option<String>,
    virtual_ip: Option<String>,
    groups: Option<Vec<String>>,
) -> (r: Result<VpnPortalClientPatch, GuiError>)
    ensures
        match (parsed_uuid(instance_id@), named_action(action@)) {
            (Err(words), _) => r matches Err(GuiError::InvalidInstanceId(said)) && said@ == words,
            (Ok(_), None) => r matches Err(GuiError::InvalidPatchAction(said)) && said@ == action@,
            (Ok(id), Some(found)) => r matches Ok(patch) && {
                &&& patch.id == id
                &&& patch.action == found
                &&& found is Clear ==> patch.client is None
                &&& !(found is Clear) ==> patch.client is Some && patch.client->0@ == (
                VpnPortalClientConfigView {
                    name: text_or_empty(name),
                    virtual_ip: text_or_empty(virtual_ip),
                    groups: match groups {
                        Some(groups) => groups@,
                        None => Seq::empty(),
                    },
                })
            },
        },
{
    let id = match parse_instance_id(instance_id) {
        Ok(id) => id,
        Err(error) => return Err(error),
    };
    let action = match read_action(action) {
        Some(action) => action,
        None => return Err(GuiError::InvalidPatchAction(action.to_string())),
    };
    let client = if action == ConfigPatchAction::Clear {
        None
    } else {
        Some(
            VpnPortalClientConfig {
                name: or_empty(name),
                virtual_ip: or_empty(virtual_ip),
                groups: match groups {
                    Some(groups) => groups,
                    None => Vec::new(),
                },
            },
        )
    };
    Ok(VpnPortalClientPatch { id, action, client })
}

/// An action has one name, written in just these letters, and no other text names one.
pub proof fn an_action_has_one_name(name: Seq<char>)
    ensures
        named_action(name) == Some(ConfigPatchAction::Add) <==> name == seq!['a', 'd', 'd'],
        named_action(name) == Some(ConfigPatchAction::Remove) <==> name == seq![
            'r',
            'e',
            'm',
            'o',
            'v',
            'e',
        ],
        named_action(name) == Some(ConfigPatchAction::Clear) <==> name == seq![
            'c',
            'l',
            'e',
            'a',
            'r',
        ],
{
    reveal_strlit("add");
    reveal_strlit("remove");
    reveal_strlit("clear");
    assert("add"@ =~= seq!['a', 'd', 'd']);
    assert("remove"@ =~= seq!['r', 'e', 'm', 'o', 'v', 'e']);
    assert("clear"@ =~= seq!['c', 'l', 'e', 'a', 'r']);
}

/// What a request leaves out is empty, and what it says is kept as it is.
pub proof fn only_what_is_left_out_is_empty(text: String)
    ensures
        text_or_empty(Some(text)) == text@,
        text_or_empty(None).len() == 0,
{
}

} // verus!
