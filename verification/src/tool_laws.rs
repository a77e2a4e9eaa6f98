//! What the options, the stored settings and the commands of the tools lead to, stated by
//! what was given and what comes of it.

use vstd::prelude::*;

use crate::client::RumbleApp;
use crate::config::{
    checks_for, cleaned, fingerprint_of, trust_of, TlsConfig, TrustData, TrustError,
};
use crate::encoding::{hex_digit, hex_round_trip, hex_text, json_text_object};
use crate::key_manager::KeyState;
use crate::launch::{cert_paths, is_started};
use crate::rpc_client::{is_request, text_request, word_request, RpcError};
use crate::settings::{Args, PersistentSettings};
use crate::settings_edits::{files_after, names_rule, FileEdit, FileSettingsData};
use crate::text::{begins_with, optional_text, spec_strip_prefix, white_space};

verus! {

// ---------------------------------------------------------------------------
// Trust in the server
// ---------------------------------------------------------------------------

proof fn lemma_digit(d: int)
    requires
        0 <= d < 16,
    ensures
        !white_space(hex_digit(d)),
        hex_digit(d) != ':',
{
}

proof fn lemma_clean(text: Seq<char>)
    requires
        forall|i: int|
            0 <= i < text.len() ==> !white_space(#[trigger] text[i]) && text[i] != ':',
    ensures
        cleaned(text) == text,
    decreases text.len(),
{
    if text.len() > 0 {
        lemma_clean(text.drop_last());
        assert(text.drop_last().push(text.last()) =~= text);
    }
}

/// A fingerprint that is given in hexadecimal digits is the one that is accepted, and nothing
/// else is: no other certificate, and none unchecked.
pub proof fn given_fingerprints_are_accepted(
    bytes: Seq<u8>,
    config: TlsConfig,
    trust: TrustData,
    contents: Vec<u8>,
)
    requires
        bytes.len() == 32,
        trust_of(None, Some(hex_text(bytes)), false) == Ok::<TrustData, TrustError>(trust),
        checks_for(config, trust, contents),
    ensures
        config.accepted_fingerprints@.len() == 1,
        config.accepted_fingerprints@[0]@ == bytes,
        config.additional_ca_certs@.len() == 0,
        !config.accept_invalid_certs,
{
    lemma_fingerprint(bytes);
}

proof fn lemma_fingerprint(bytes: Seq<u8>)
    requires
        bytes.len() == 32,
    ensures
        fingerprint_of(hex_text(bytes)) == Ok::<Seq<u8>, TrustError>(bytes),
{
    let text = hex_text(bytes);
    assert forall|i: int| 0 <= i < text.len() implies !white_space(#[trigger] text[i]) && text[i]
        != ':' by {
        let b = bytes[i / 2] as int;
        lemma_digit(b / 16);
        lemma_digit(b % 16);
    }
    lemma_clean(text);
    hex_round_trip(bytes);
}

/// Thirty-two bytes in hexadecimal digits are a fingerprint, and so they are with colons or
/// blanks anywhere between them.
pub proof fn fingerprints_may_have_colons(text: Seq<char>, more: Seq<char>, sign: char)
    requires
        sign == ':' || white_space(sign),
    ensures
        fingerprint_of(text.push(sign) + more) == fingerprint_of(text + more),
{
    lemma_cleaned_both(text.push(sign), more);
    lemma_cleaned_both(text, more);
    assert(text.push(sign).drop_last() =~= text);
}

proof fn lemma_cleaned_both(a: Seq<char>, b: Seq<char>)
    ensures
        cleaned(a + b) == cleaned(a) + cleaned(b),
    decreases b.len(),
{
    if b.len() == 0 {
        assert(a + b =~= a);
        assert(cleaned(a) + cleaned(b) =~= cleaned(a));
    } else {
        lemma_cleaned_both(a, b.drop_last());
        assert((a + b).drop_last() =~= a + b.drop_last());
        assert((cleaned(a) + cleaned(b.drop_last())).push(b.last()) =~= cleaned(a) + cleaned(
            b.drop_last(),
        ).push(b.last()));
    }
}

/// A certificate that is named is trusted by what its file holds, beside those of the
/// system; without any option only those of the system are; and any will do only where that
/// was asked for.
pub proof fn options_say_what_is_trusted(
    path: Seq<char>,
    config: TlsConfig,
    trust: TrustData,
    contents: Vec<u8>,
)
    requires
        checks_for(config, trust, contents),
    ensures
        trust_of(Some(path), None, false) == Ok::<TrustData, TrustError>(trust) ==> {
            &&& config.additional_ca_certs@ == seq![contents]
            &&& config.accepted_fingerprints@.len() == 0
            &&& !config.accept_invalid_certs
        },
        trust_of(None, None, false) == Ok::<TrustData, TrustError>(trust) ==> {
            &&& config.additional_ca_certs@.len() == 0
            &&& config.accepted_fingerprints@.len() == 0
            &&& !config.accept_invalid_certs
        },
        trust_of(None, None, true) == Ok::<TrustData, TrustError>(trust)
            ==> config.accept_invalid_certs,
        trust_of(Some(path), None, false) is Ok,
        trust_of(None, None, false) is Ok,
        trust_of(None, None, true) is Ok,
{
}

// ---------------------------------------------------------------------------
// The start of the client
// ---------------------------------------------------------------------------

/// What the command line names goes before what was stored, and what it does not name is as
/// it was stored. What is in the window is in the settings too.
pub proof fn the_command_line_goes_first(
    app: RumbleApp,
    args: Args,
    settings: PersistentSettings,
    keys: KeyState,
    id: Seq<u8>,
)
    requires
        is_started(app, args, settings, keys, id),
    ensures
        args.server matches Some(server) ==> app.connect_address@ == server@,
        args.server is None ==> app.connect_address@ == settings.server_address@,
        args.password matches Some(password) ==> app.connect_password@ == password@,
        args.password is None ==> app.connect_password@ == settings.server_password@,
        args.name matches Some(name) ==> app.client_name@ == name@,
        args.name is None && settings.client_name@.len() > 0 ==> app.client_name@
            == settings.client_name@,
        args.name is None && settings.client_name@.len() == 0 ==> app.client_name@.len() == 5 + 2
            * id.len() && app.client_name@.skip(5) == hex_text(id),
        app.trust_dev_cert <==> args.trust_dev_cert || settings.trust_dev_cert,
        app.autoconnect_on_launch == settings.autoconnect_on_launch,
        app.persistent_settings.client_name@ == app.client_name@,
        app.persistent_settings.server_address@ == app.connect_address@,
        app.persistent_settings.server_password@ == app.connect_password@,
        app.persistent_settings.sfx == settings.sfx,
        app.persistent_settings.keyboard == settings.keyboard,
        app.persistent_settings.file_transfer == settings.file_transfer,
{
    reveal_strlit("user-");
    assert(("user-"@ + hex_text(id)).skip(5) =~= hex_text(id));
}

/// A certificate of the command line stands in for a stored one; that of the environment is
/// trusted beside either, and that of the development server before them where it is trusted.
pub proof fn certificates_are_trusted_in_order(
    trust: bool,
    given: Seq<char>,
    stored: Option<Seq<char>>,
    environment: Option<Seq<char>>,
    path: Seq<char>,
)
    ensures
        cert_paths(trust, Some(given), stored, environment) == cert_paths(
            trust,
            None,
            Some(given),
            environment,
        ),
        cert_paths(trust, Some(given), stored, Some(path)) == cert_paths(
            trust,
            Some(given),
            stored,
            None,
        ).push(path),
        cert_paths(true, Some(given), stored, environment).drop_first() == cert_paths(
            false,
            Some(given),
            stored,
            environment,
        ),
        cert_paths(false, Some(given), stored, None) == seq![given],
        cert_paths(false, None, None, None).len() == 0,
{
    assert(cert_paths(trust, Some(given), stored, Some(path)) =~= cert_paths(
        trust,
        Some(given),
        stored,
        None,
    ).push(path));
    assert(cert_paths(true, Some(given), stored, environment).drop_first() =~= cert_paths(
        false,
        Some(given),
        stored,
        environment,
    ));
    assert(cert_paths(false, Some(given), stored, None) =~= seq![given]);
}

// ---------------------------------------------------------------------------
// Settings of file transfers
// ---------------------------------------------------------------------------

/// A change to file transfers changes what it names, and nothing else; limits are kept in
/// bytes.
pub proof fn file_changes_change_one_thing(
    settings: FileSettingsData,
    edit: FileEdit,
)
    requires
        names_rule(settings, edit),
    ensures
        ({
            let now = files_after(settings, edit);
            &&& now.auto_download_enabled == match edit {
                FileEdit::AutoDownload(on) => on,
                _ => settings.auto_download_enabled,
            }
            &&& now.seed_after_download == match edit {
                FileEdit::SeedAfterDownload(on) => on,
                _ => settings.seed_after_download,
            }
            &&& now.cleanup_on_exit == match edit {
                FileEdit::CleanupOnExit(on) => on,
                _ => settings.cleanup_on_exit,
            }
            &&& now.auto_sync_history == match edit {
                FileEdit::AutoSyncHistory(on) => on,
                _ => settings.auto_sync_history,
            }
            &&& edit !is DownloadLimit ==> now.download_speed_limit
                == settings.download_speed_limit
            &&& edit !is UploadLimit ==> now.upload_speed_limit == settings.upload_speed_limit
            &&& edit matches FileEdit::DownloadLimit(kilobytes) ==> (kilobytes <= 100_000
                ==> now.download_speed_limit == 1024 * kilobytes)
            &&& edit matches FileEdit::UploadLimit(kilobytes) ==> (kilobytes <= 100_000
                ==> now.upload_speed_limit == 1024 * kilobytes)
            &&& !(edit is Pattern || edit is MaxSize || edit is RemoveRule || edit is AddRule)
                ==> now.rules == settings.rules
        }),
{
}

/// A change to a rule changes that rule and no other: its pattern or its limit, which stays
/// where the other is changed. A rule that is removed goes, and a new one comes last.
pub proof fn rule_changes_change_one_rule(
    settings: FileSettingsData,
    rule: usize,
    pattern: String,
    megabytes: u64,
)
    requires
        rule < settings.rules.len(),
        megabytes <= 1000,
    ensures
        ({
            let old_rules = settings.rules;
            let renamed = files_after(settings, FileEdit::Pattern { rule, pattern }).rules;
            let resized = files_after(settings, FileEdit::MaxSize { rule, megabytes }).rules;
            let fewer = files_after(settings, FileEdit::RemoveRule(rule)).rules;
            let more = files_after(settings, FileEdit::AddRule).rules;
            let at = rule as int;
            &&& renamed.len() == old_rules.len() && resized.len() == old_rules.len()
            &&& forall|i: int|
                0 <= i < old_rules.len() && i != at ==> #[trigger] renamed[i] == old_rules[i]
            &&& forall|i: int|
                0 <= i < old_rules.len() && i != at ==> #[trigger] resized[i] == old_rules[i]
            &&& renamed[at].mime_pattern == pattern@
            &&& renamed[at].max_size_bytes == old_rules[at].max_size_bytes
            &&& resized[at].mime_pattern == old_rules[at].mime_pattern
            &&& resized[at].max_size_bytes == 1_048_576 * megabytes
            &&& fewer == old_rules.take(at) + old_rules.skip(at + 1)
            &&& more.drop_last() == old_rules
            &&& more.last().mime_pattern.len() == 0
            &&& more.last().max_size_bytes == 10 * 1024 * 1024
        }),
{
    reveal_strlit("");
    let old_rules = settings.rules;
    let at = rule as int;
    assert(old_rules.remove(at) =~= old_rules.take(at) + old_rules.skip(at + 1));
    let more = files_after(settings, FileEdit::AddRule).rules;
    assert(more.drop_last() =~= old_rules);
    assert(crate::settings_edits::rule_limit(10) == 10 * 1024 * 1024);
    assert(crate::settings_edits::rule_limit(megabytes) == 1_048_576 * megabytes);
    let resized = files_after(settings, FileEdit::MaxSize { rule, megabytes }).rules;
    assert(resized[at].max_size_bytes == crate::settings_edits::rule_limit(megabytes));
    let renamed = files_after(settings, FileEdit::Pattern { rule, pattern }).rules;
    assert(renamed[at].mime_pattern == pattern@);
    assert(files_after(settings, FileEdit::RemoveRule(rule)).rules =~= old_rules.take(at)
        + old_rules.skip(at + 1));
    assert(more.last().mime_pattern.len() == 0);
}

// ---------------------------------------------------------------------------
// Commands for a running client
// ---------------------------------------------------------------------------

proof fn lemma_strips(prefix: Seq<char>, text: Seq<char>)
    ensures
        spec_strip_prefix(prefix + text, prefix) == Some(text),
{
    assert((prefix + text).subrange(0, prefix.len() as int) =~= prefix);
    assert((prefix + text).skip(prefix.len() as int) =~= text);
}

proof fn lemma_strips_not(prefix: Seq<char>, other: Seq<char>, text: Seq<char>, at: int)
    requires
        0 <= at < prefix.len(),
        at < other.len(),
        prefix[at] != other[at],
    ensures
        spec_strip_prefix(other + text, prefix) is None,
{
    let all = other + text;
    if begins_with(all, prefix) {
        assert(all.subrange(0, prefix.len() as int)[at] == prefix[at]);
        assert(all[at] == other[at]);
    }
}

/// A command that carries a text asks for the one thing that its first word says, with the
/// text as it is, whatever the text.
pub proof fn commands_carry_their_text(text: Seq<char>)
    ensures
        text_request("join-room "@ + text) == Some(
            json_text_object("method"@, "join_room"@, "room_id"@, text),
        ),
        text_request("send-chat "@ + text) == Some(
            json_text_object("method"@, "send_chat"@, "text"@, text),
        ),
        text_request("create-room "@ + text) == Some(
            json_text_object("method"@, "create_room"@, "name"@, text),
        ),
        text_request("delete-room "@ + text) == Some(
            json_text_object("method"@, "delete_room"@, "room_id"@, text),
        ),
        text_request("share-file "@ + text) == Some(
            json_text_object("method"@, "share_file"@, "path"@, text),
        ),
        text_request("download "@ + text) == Some(
            json_text_object("method"@, "download_file"@, "magnet"@, text),
        ),
{
    reveal_strlit("join-room ");
    reveal_strlit("send-chat ");
    reveal_strlit("create-room ");
    reveal_strlit("delete-room ");
    reveal_strlit("share-file ");
    reveal_strlit("download ");
    let join = "join-room "@;
    let send = "send-chat "@;
    let create = "create-room "@;
    let delete = "delete-room "@;
    let share = "share-file "@;
    let download = "download "@;
    lemma_strips(join, text);
    lemma_strips(send, text);
    lemma_strips(create, text);
    lemma_strips(delete, text);
    lemma_strips(share, text);
    lemma_strips(download, text);
    lemma_strips_not(join, send, text, 0);
    lemma_strips_not(join, create, text, 0);
    lemma_strips_not(send, create, text, 0);
    lemma_strips_not(join, delete, text, 0);
    lemma_strips_not(send, delete, text, 0);
    lemma_strips_not(create, delete, text, 0);
    lemma_strips_not(join, share, text, 0);
    lemma_strips_not(send, share, text, 1);
    lemma_strips_not(create, share, text, 0);
    lemma_strips_not(delete, share, text, 0);
    lemma_strips_not(join, download, text, 0);
    lemma_strips_not(send, download, text, 0);
    lemma_strips_not(create, download, text, 0);
    lemma_strips_not(delete, download, text, 1);
    lemma_strips_not(share, download, text, 0);
}

/// The request for a method with a switch.
pub open spec fn switch_request(method: Seq<char>, key: Seq<char>, on: bool) -> Seq<char> {
    "{\"method\":\""@ + method + "\",\""@ + key + "\":"@ + (if on {
        "true}"@
    } else {
        "false}"@
    })
}

/// To mute and to unmute is to ask for the same thing with the switch turned over, and so it
/// is to deafen and to undeafen.
pub proof fn switches_are_turned_over()
    ensures
        word_request("mute"@) == Some(switch_request("set_muted"@, "muted"@, true)),
        word_request("unmute"@) == Some(switch_request("set_muted"@, "muted"@, false)),
        word_request("deafen"@) == Some(switch_request("set_deafened"@, "deafened"@, true)),
        word_request("undeafen"@) == Some(switch_request("set_deafened"@, "deafened"@, false)),
{
    reveal_strlit("status");
    reveal_strlit("state");
    reveal_strlit("mute");
    reveal_strlit("unmute");
    reveal_strlit("deafen");
    reveal_strlit("undeafen");
    reveal_strlit("{\"method\":\"");
    reveal_strlit("\",\"");
    reveal_strlit("\":");
    reveal_strlit("true}");
    reveal_strlit("false}");
    reveal_strlit("set_muted");
    reveal_strlit("muted");
    reveal_strlit("set_deafened");
    reveal_strlit("deafened");
    reveal_strlit(r#"{"method":"set_muted","muted":true}"#);
    reveal_strlit(r#"{"method":"set_muted","muted":false}"#);
    reveal_strlit(r#"{"method":"set_deafened","deafened":true}"#);
    reveal_strlit(r#"{"method":"set_deafened","deafened":false}"#);
    assert("status"@.len() == 6 && "state"@.len() == 5 && "mute"@.len() == 4 && "unmute"@.len() == 6
        && "deafen"@.len() == 6 && "undeafen"@.len() == 8);
    assert("status"@[0] == 's' && "unmute"@[0] == 'u' && "deafen"@[0] == 'd');
    assert(r#"{"method":"set_muted","muted":true}"#@ =~= switch_request(
        "set_muted"@,
        "muted"@,
        true,
    ));
    assert(r#"{"method":"set_muted","muted":false}"#@ =~= switch_request(
        "set_muted"@,
        "muted"@,
        false,
    ));
    assert(r#"{"method":"set_deafened","deafened":true}"#@ =~= switch_request(
        "set_deafened"@,
        "deafened"@,
        true,
    ));
    assert(r#"{"method":"set_deafened","deafened":false}"#@ =~= switch_request(
        "set_deafened"@,
        "deafened"@,
        false,
    ));
}

/// A command that is neither a word nor carries a text or a user is refused by its own words.
pub proof fn unknown_commands_are_refused(
    command: Seq<char>,
    result: Result<Seq<char>, RpcError>,
)
    requires
        is_request(command, result),
        word_request(command) is None,
        text_request(command) is None,
        spec_strip_prefix(command, "mute-user "@) is None,
        spec_strip_prefix(command, "unmute-user "@) is None,
    ensures
        result matches Err(RpcError::UnknownCommand(name)) && name@ == command,
{
}

} // verus!
