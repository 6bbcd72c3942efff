//! The words that the interface shows: the title, the rows of the list and
//! the password field. Drawing them is the program's work.

use crate::event_loop::LoopState;
use crate::text::{decimal_text, push_decimal, push_signed, signed_text};
use crate::wifi_scanner::{description_of, network_views, percentage_of, NetworkView, WifiNetwork};
use vstd::prelude::*;

verus! {

/// The number of rows of the list that are shown.
pub const VISIBLE_ROWS: usize = 10;

/// What fills the window.
#[derive(Debug, Clone, Copy, PartialEq, Eq)]
pub enum Panel {
    /// The password dialog.
    PasswordDialog,
    /// The list of networks.
    NetworkList,
    /// The notice that a scan is under way.
    Scanning,
    /// The notice that the radio is off.
    Disabled,
}

/// The name of the first active network of a list.
pub open spec fn connected_name(list: Seq<NetworkView>) -> Option<Seq<char>>
    decreases list.len(),
{
    if list.len() == 0 {
        None
    } else if list[0].active {
        Some(list[0].ssid)
    } else {
        connected_name(list.skip(1))
    }
}

/// The title of the window: the radio state and, while the radio is on,
/// the network in use or else the number of networks in sight.
pub open spec fn title_text(enabled: bool, list: Seq<NetworkView>) -> Seq<char> {
    if !enabled {
        "WiFi Manager [DISABLED]"@
    } else {
        match connected_name(list) {
            Some(ssid) => "WiFi Manager [ENABLED] - Connected: "@ + ssid,
            None => "WiFi Manager [ENABLED] - Networks: "@ + decimal_text(list.len()),
        }
    }
}

/// The row of a network: its name, its signal as a percentage, in a word
/// and in dBm, and a mark where it is the network in use.
pub open spec fn row_text(network: NetworkView) -> Seq<char> {
    let head = network.ssid + "  ["@ + decimal_text(percentage_of(network.signal) as nat) + "%] "@
        + description_of(network.signal) + " ("@ + signed_text(network.signal) + " dBm)"@;
    if network.active {
        head + " [CONNECTED]"@
    } else {
        head
    }
}

/// `count` stars.
pub open spec fn stars(count: nat) -> Seq<char> {
    Seq::new(count, |i: int| '*')
}

/// The password field: a star for each character, and a bar where the
/// cursor stands, at the end where the cursor is beyond it.
pub open spec fn password_field_text(len: nat, cursor: nat) -> Seq<char> {
    if cursor < len {
        stars(cursor) + seq!['|'] + stars((len - cursor) as nat)
    } else {
        stars(len) + seq!['|']
    }
}

/// What fills the window in a state.
pub open spec fn panel_of(state: LoopState) -> Panel {
    if state.ui.show_password_prompt {
        Panel::PasswordDialog
    } else if !state.wifi_enabled {
        Panel::Disabled
    } else if state.networks.len() > 0 {
        Panel::NetworkList
    } else {
        Panel::Scanning
    }
}

/// Appends `count` stars to `out`.
fn push_stars(out: &mut String, count: usize)
    ensures
        final(out)@ == old(out)@ + stars(count as nat),
{
    let mut i: usize = 0;
    assert(out@ =~= old(out)@ + stars(0));
    while i < count
        invariant
            i <= count,
            out@ == old(out)@ + stars(i as nat),
        decreases count - i,
    {
        out.push('*');
        i += 1;
        assert(out@ =~= old(out)@ + stars(i as nat));
    }
}

/// What fills the window.
pub fn panel(state: &LoopState) -> (shown: Panel)
    ensures
        shown == panel_of(*state),
{
    if state.ui.show_password_prompt {
        Panel::PasswordDialog
    } else if !state.wifi_enabled {
        Panel::Disabled
    } else if state.networks.len() > 0 {
        Panel::NetworkList
    } else {
        Panel::Scanning
    }
}

/// The title of the window.
pub fn title(wifi_enabled: bool, networks: &Vec<WifiNetwork>) -> (text: String)
    ensures
        text@ == title_text(wifi_enabled, network_views(networks@)),
{
    if !wifi_enabled {
        return "WiFi Manager [DISABLED]".to_owned();
    }
    let ghost list = network_views(networks@);
    let mut i: usize = 0;
    assert(list.skip(0) =~= list);
    while i < networks.len()
        invariant
            i <= networks.len(),
            wifi_enabled,
            list == network_views(networks@),
            connected_name(list) == connected_name(list.skip(i as int)),
        decreases networks.len() - i,
    {
        proof {
            assert(list.skip(i as int).skip(1) =~= list.skip(i + 1));
            assert(list.skip(i as int)[0] == networks@[i as int]@);
        }
        if networks[i].active {
            let mut text = "WiFi Manager [ENABLED] - Connected: ".to_owned();
            text.append(networks[i].ssid.as_str());
            return text;
        }
        i += 1;
    }
    let mut text = "WiFi Manager [ENABLED] - Networks: ".to_owned();
    push_decimal(&mut text, networks.len() as u64);
    text
}

/// The row of a network.
pub fn row(network: &WifiNetwork) -> (text: String)
    ensures
        text@ == row_text(network@),
{
    let mut text = network.ssid.clone();
    text.append("  [");
    push_decimal(&mut text, network.signal_percentage() as u64);
    text.append("%] ");
    text.append(network.signal_description());
    text.append(" (");
    push_signed(&mut text, network.signal);
    text.append(" dBm)");
    if network.active {
        text.append(" [CONNECTED]");
    }
    text
}

/// The rows that are shown: those of the first networks of the list, as
/// many as the window holds.
pub fn visible_rows(networks: &Vec<WifiNetwork>) -> (rows: Vec<String>)
    ensures
        rows.len() == if networks.len() < VISIBLE_ROWS {
            networks.len()
        } else {
            VISIBLE_ROWS
        },
        forall|i: int| 0 <= i < rows.len() ==> (#[trigger] rows@[i])@ == row_text(networks@[i]@),
{
    let count: usize = if networks.len() < VISIBLE_ROWS {
        networks.len()
    } else {
        VISIBLE_ROWS
    };
    let mut rows: Vec<String> = Vec::new();
    let mut i: usize = 0;
    while i < count
        invariant
            i <= count <= networks.len(),
            rows.len() == i,
            forall|j: int| 0 <= j < i ==> (#[trigger] rows@[j])@ == row_text(networks@[j]@),
        decreases count - i,
    {
        rows.push(row(&networks[i]));
        i += 1;
    }
    rows
}

/// The password field for a password of `len` characters with the cursor
/// at `cursor`.
pub fn password_field(len: usize, cursor: usize) -> (text: String)
    ensures
        text@ == password_field_text(len as nat, cursor as nat),
{
    let mut text = String::new();
    if cursor < len {
        push_stars(&mut text, cursor);
        text.push('|');
        push_stars(&mut text, len - cursor);
        assert(text@ =~= password_field_text(len as nat, cursor as nat));
    } else {
        push_stars(&mut text, len);
        text.push('|');
        assert(text@ =~= password_field_text(len as nat, cursor as nat));
    }
    text
}

} // verus!
