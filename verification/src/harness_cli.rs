//! The command line of the test daemon: what it prints, and the order in which it brings
//! a test session up, takes it down and brings it up anew.

use vstd::prelude::*;

use crate::harness_protocol::{
    AutoDownloadRuleConfig, ClientInfo, FileTransferInfo, Position, Response, ResponseData,
};
use crate::launch::text_list;
use crate::text::{byte_cut, can_cut, decimal, decimal_text, head_bytes, joined, joined3};

verus! {

// ---------------------------------------------------------------------------
// Printing
// ---------------------------------------------------------------------------

/// `true` or `false`.
pub open spec fn truth(value: bool) -> Seq<char> {
    if value {
        "true"@
    } else {
        "false"@
    }
}

/// The line of a client.
pub open spec fn client_line(client: ClientInfo) -> Seq<char> {
    "  ["@ + decimal(client.id as nat) + "] "@ + client.name@ + " (connected: "@ + truth(
        client.connected,
    ) + ")"@
}

/// The line of a rule.
pub open spec fn rule_line(rule: AutoDownloadRuleConfig) -> Seq<char> {
    "  "@ + rule.mime_pattern@ + " (max "@ + decimal(rule.max_size_bytes as nat) + " bytes)"@
}

/// The line of a transfer, with the first eight bytes of its hash.
pub open spec fn transfer_line(transfer: FileTransferInfo) -> Seq<char> {
    "  ["@ + byte_cut(transfer.infohash@, 0, 8) + "] "@ + transfer.name@ + " ("@ + transfer.progress@
        + "% - "@ + transfer.state@ + ")"@
}

/// A path with the size of an image.
pub open spec fn image_text(path: Seq<char>, width: u32, height: u32) -> Seq<char> {
    path + " ("@ + decimal(width as nat) + "x"@ + decimal(height as nat) + ")"@
}

/// What is printed of an answer.
#[derive(Debug)]
pub enum Printed {
    /// These lines.
    Lines(Vec<String>),
    /// Origin and size of a widget.
    Rect(Position, Position),
    /// An error, and the program ends with it.
    Failure(String),
}

/// The lines of an answer, but for the place of a widget.
pub open spec fn data_lines(data: ResponseData) -> Seq<Seq<char>> {
    match data {
        ResponseData::Ack => seq!["OK"@],
        ResponseData::Pong => seq!["pong"@],
        ResponseData::Status { server_running, client_count } => seq![
            "Server running: "@ + truth(server_running),
            "Active clients: "@ + decimal(client_count as nat),
        ],
        ResponseData::ClientCreated { id } => seq!["Client created: "@ + decimal(id as nat)],
        ResponseData::ClientList { clients } => if clients@.len() == 0 {
            seq!["No active clients"@]
        } else {
            seq!["Active clients:"@] + clients@.map_values(|one: ClientInfo| client_line(one))
        },
        ResponseData::Screenshot { path, width, height } => seq![
            "Screenshot saved: "@ + image_text(path@, width, height),
        ],
        ResponseData::Connected { connected } => seq![truth(connected)],
        ResponseData::State { state } => seq![state@],
        ResponseData::FramesRun { count } => seq!["Ran "@ + decimal(count as nat) + " frames"@],
        ResponseData::WidgetExists { exists } => seq![truth(exists)],
        ResponseData::WidgetRect { .. } => seq!["Widget not found"@],
        ResponseData::FileTransferSettings { auto_download_enabled, auto_download_rules } => seq![
            "Auto-download enabled: "@ + truth(auto_download_enabled),
            "Rules:"@,
        ] + auto_download_rules@.map_values(|rule: AutoDownloadRuleConfig| rule_line(rule)),
        ResponseData::FileShared { infohash, magnet_link } => seq![
            "File shared!"@,
            "Infohash: "@ + infohash@,
            "Magnet: "@ + magnet_link@,
        ],
        ResponseData::FileTransfers { transfers } => if transfers@.len() == 0 {
            seq!["No file transfers"@]
        } else {
            seq!["File transfers:"@] + transfers@.map_values(
                |transfer: FileTransferInfo| transfer_line(transfer),
            )
        },
    }
}

/// Whether the hashes of an answer are long enough to be cut short.
pub open spec fn has_hashes(response: Response) -> bool {
    response matches Response::Success { data: ResponseData::FileTransfers { transfers } }
        ==> forall|i: int|
        0 <= i < transfers@.len() ==> can_cut((#[trigger] transfers@[i]).infohash@, 8)
}

fn truth_text(value: bool) -> (text: &'static str)
    ensures
        text@ == truth(value),
{
    if value {
        "true"
    } else {
        "false"
    }
}

fn add_line(lines: &mut Vec<String>, line: String)
    ensures
        text_list(final(lines)@) == text_list(old(lines)@).push(line@),
{
    lines.push(line);
    assert(text_list(lines@) =~= text_list(old(lines)@).push(line@));
}

fn one_line(line: String) -> (lines: Vec<String>)
    ensures
        text_list(lines@) == seq![line@],
{
    let mut lines: Vec<String> = Vec::new();
    lines.push(line);
    assert(text_list(lines@) =~= seq![line@]);
    lines
}

fn client_to_line(client: &ClientInfo) -> (line: String)
    ensures
        line@ == client_line(*client),
{
    let mut line = joined3("  [", decimal_text(client.id as u64).as_str(), "] ");
    line.push_str(client.name.as_str());
    line.push_str(" (connected: ");
    line.push_str(truth_text(client.connected));
    line.push_str(")");
    line
}

/// The lines of a list of clients.
pub fn client_lines(clients: &Vec<ClientInfo>) -> (lines: Vec<String>)
    ensures
        text_list(lines@) == clients@.map_values(|one: ClientInfo| client_line(one)),
{
    let mut lines: Vec<String> = Vec::new();
    let mut i: usize = 0;
    while i < clients.len()
        invariant
            i <= clients@.len(),
            text_list(lines@) == clients@.take(i as int).map_values(
                |one: ClientInfo| client_line(one),
            ),
        decreases clients@.len() - i,
    {
        add_line(&mut lines, client_to_line(&clients[i]));
        assert(text_list(lines@) =~= clients@.take(i + 1).map_values(
            |one: ClientInfo| client_line(one),
        ));
        i += 1;
    }
    assert(clients@.take(i as int) =~= clients@);
    lines
}

fn rule_lines(rules: &Vec<AutoDownloadRuleConfig>) -> (lines: Vec<String>)
    ensures
        text_list(lines@) == rules@.map_values(|rule: AutoDownloadRuleConfig| rule_line(rule)),
{
    let mut lines: Vec<String> = Vec::new();
    let mut i: usize = 0;
    while i < rules.len()
        invariant
            i <= rules@.len(),
            text_list(lines@) == rules@.take(i as int).map_values(
                |rule: AutoDownloadRuleConfig| rule_line(rule),
            ),
        decreases rules@.len() - i,
    {
        let mut line = joined3("  ", rules[i].mime_pattern.as_str(), " (max ");
        line.push_str(decimal_text(rules[i].max_size_bytes).as_str());
        line.push_str(" bytes)");
        add_line(&mut lines, line);
        assert(text_list(lines@) =~= rules@.take(i + 1).map_values(
            |rule: AutoDownloadRuleConfig| rule_line(rule),
        ));
        i += 1;
    }
    assert(rules@.take(i as int) =~= rules@);
    lines
}

fn transfer_lines(transfers: &Vec<FileTransferInfo>) -> (lines: Vec<String>)
    requires
        forall|i: int|
            0 <= i < transfers@.len() ==> can_cut((#[trigger] transfers@[i]).infohash@, 8),
    ensures
        text_list(lines@) == transfers@.map_values(
            |transfer: FileTransferInfo| transfer_line(transfer),
        ),
{
    let mut lines: Vec<String> = Vec::new();
    let mut i: usize = 0;
    while i < transfers.len()
        invariant
            i <= transfers@.len(),
            forall|j: int|
                0 <= j < transfers@.len() ==> can_cut((#[trigger] transfers@[j]).infohash@, 8),
            text_list(lines@) == transfers@.take(i as int).map_values(
                |transfer: FileTransferInfo| transfer_line(transfer),
            ),
        decreases transfers@.len() - i,
    {
        let transfer = &transfers[i];
        let hash = head_bytes(transfer.infohash.as_str(), 8);
        let mut line = joined3("  [", hash.as_str(), "] ");
        line.push_str(transfer.name.as_str());
        line.push_str(" (");
        line.push_str(transfer.progress.as_str());
        line.push_str("% - ");
        line.push_str(transfer.state.as_str());
        line.push_str(")");
        assert(line@ =~= transfer_line(*transfer));
        add_line(&mut lines, line);
        assert(text_list(lines@) =~= transfers@.take(i + 1).map_values(
            |transfer: FileTransferInfo| transfer_line(transfer),
        ));
        i += 1;
    }
    assert(transfers@.take(i as int) =~= transfers@);
    lines
}

fn headed(head: &str, rest: Vec<String>) -> (lines: Vec<String>)
    ensures
        text_list(lines@) == seq![head@] + text_list(rest@),
{
    let mut lines = one_line(head.to_owned());
    let mut tail = rest;
    lines.append(&mut tail);
    assert(text_list(lines@) =~= seq![head@] + text_list(rest@));
    lines
}

fn image_to_text(path: &str, width: u32, height: u32) -> (text: String)
    ensures
        text@ == image_text(path@, width, height),
{
    let mut text = joined(path, " (");
    text.push_str(decimal_text(width as u64).as_str());
    text.push_str("x");
    text.push_str(decimal_text(height as u64).as_str());
    text.push_str(")");
    text
}

fn two_lines(first: String, second: String) -> (lines: Vec<String>)
    ensures
        text_list(lines@) == seq![first@, second@],
{
    let mut lines = one_line(first);
    add_line(&mut lines, second);
    assert(text_list(lines@) =~= seq![first@, second@]);
    lines
}

fn lines_of(data: &ResponseData) -> (lines: Vec<String>)
    requires
        data matches ResponseData::FileTransfers { transfers } ==> forall|i: int|
            0 <= i < transfers@.len() ==> can_cut((#[trigger] transfers@[i]).infohash@, 8),
    ensures
        text_list(lines@) == data_lines(*data),
{
    match data {
        ResponseData::Ack => one_line("OK".to_owned()),
        ResponseData::Pong => one_line("pong".to_owned()),
        ResponseData::Status { server_running, client_count } => two_lines(
            joined("Server running: ", truth_text(*server_running)),
            joined("Active clients: ", decimal_text(*client_count as u64).as_str()),
        ),
        ResponseData::ClientCreated { id } => one_line(
            joined("Client created: ", decimal_text(*id as u64).as_str()),
        ),
        ResponseData::ClientList { clients } => if clients.len() == 0 {
            one_line("No active clients".to_owned())
        } else {
            headed("Active clients:", client_lines(clients))
        },
        ResponseData::Screenshot { path, width, height } => one_line(
            joined("Screenshot saved: ", image_to_text(path.as_str(), *width, *height).as_str()),
        ),
        ResponseData::Connected { connected } => one_line(truth_text(*connected).to_owned()),
        ResponseData::State { state } => one_line(state.clone()),
        ResponseData::FramesRun { count } => one_line(
            joined3("Ran ", decimal_text(*count as u64).as_str(), " frames"),
        ),
        ResponseData::WidgetExists { exists } => one_line(truth_text(*exists).to_owned()),
        ResponseData::WidgetRect { rect: _ } => one_line("Widget not found".to_owned()),
        ResponseData::FileTransferSettings { auto_download_enabled, auto_download_rules } => {
            let mut lines = two_lines(
                joined("Auto-download enabled: ", truth_text(*auto_download_enabled)),
                "Rules:".to_owned(),
            );
            let mut rules = rule_lines(auto_download_rules);
            let ghost first = text_list(lines@);
            let ghost rest = text_list(rules@);
            lines.append(&mut rules);
            assert(text_list(lines@) =~= first + rest);
            lines
        },
        ResponseData::FileShared { infohash, magnet_link } => {
            let mut lines = two_lines(
                "File shared!".to_owned(),
                joined("Infohash: ", infohash.as_str()),
            );
            add_line(&mut lines, joined("Magnet: ", magnet_link.as_str()));
            assert(text_list(lines@) =~= data_lines(*data));
            lines
        },
        ResponseData::FileTransfers { transfers } => if transfers.len() == 0 {
            one_line("No file transfers".to_owned())
        } else {
            headed("File transfers:", transfer_lines(transfers))
        },
    }
}

/// What is printed of a response.
pub fn print_response(response: &Response) -> (printed: Printed)
    requires
        has_hashes(*response),
    ensures
        match *response {
            Response::Error { message } => printed matches Printed::Failure(line) && line@
                == "Error: "@ + message@,
            Response::Success { data } => match data {
                ResponseData::WidgetRect { rect: Some(pair) } => printed == Printed::Rect(
                    pair.0,
                    pair.1,
                ),
                _ => printed matches Printed::Lines(lines) && text_list(lines@) == data_lines(data),
            },
        },
{
    match response {
        Response::Error { message } => Printed::Failure(joined("Error: ", message.as_str())),
        Response::Success { data } => {
            if let ResponseData::WidgetRect { rect: Some((origin, size)) } = data {
                return Printed::Rect(*origin, *size);
            }
            Printed::Lines(lines_of(data))
        },
    }
}

} // verus!
