//! Starting the client: command line, stored settings and stored key come together.

use vstd::prelude::*;

use crate::client::{
    ConnectionData, ConnectionState, DeleteRoomModalState, DescriptionModalState,
    DownloadModalState, FirstRunState, ImageViewModalState, MoveRoomModalState, RenameModalState,
    RumbleApp,
};
use crate::commands::{rule_list, Command, CommandData, Commands};
use crate::connecting::{app_connect_commands, append_commands};
use crate::encoding::{base64_bytes, base64_decode, hex_encode, hex_text, random_uuid_bytes};
use crate::key_manager::{
    initial_keys, optional_config, plaintext_keys, KeyConfig, KeyManager, KeyState,
};
use crate::settings::{
    AcceptedCertificate, Args, AutoDownloadRule, FileTransferSettings, PersistentSettings,
};
use crate::signing::{key_bytes, optional_seed, parse_signing_key};
use crate::text::{copy_optional, joined, optional_text};
use crate::toasts::{ToastData, ToastManager};

verus! {

/// Where the certificate of the development server lies.
pub const DEV_CERT_PATH: &'static str = "dev-certs/server-cert.der";

/// A text of the command line, or else the stored one.
pub open spec fn chosen(given: Option<Seq<char>>, stored: Seq<char>) -> Seq<char> {
    match given {
        Some(text) => text,
        None => stored,
    }
}

/// The name of the client: that of the command line, the stored one, or one made up
/// from a number.
pub open spec fn chosen_name(given: Option<Seq<char>>, stored: Seq<char>, id: Seq<u8>) -> Seq<char> {
    match given {
        Some(text) => text,
        None => if stored.len() == 0 {
            "user-"@ + hex_text(id)
        } else {
            stored
        },
    }
}

/// The certificates that are trusted, by their paths, in this order: that of the
/// development server, one that was named, and that of the environment.
pub open spec fn cert_paths(
    trust_dev_cert: bool,
    given: Option<Seq<char>>,
    stored: Option<Seq<char>>,
    environment: Option<Seq<char>>,
) -> Seq<Seq<char>> {
    (if trust_dev_cert {
        seq![DEV_CERT_PATH@]
    } else {
        Seq::empty()
    }) + (match given {
        Some(path) => seq![path],
        None => match stored {
            Some(path) => seq![path],
            None => Seq::empty(),
        },
    }) + (match environment {
        Some(path) => seq![path],
        None => Seq::empty(),
    })
}

/// The texts of a list.
pub open spec fn text_list(list: Seq<String>) -> Seq<Seq<char>> {
    list.map_values(|text: String| text@)
}

/// The bytes of a list of byte strings.
pub open spec fn bytes_list(list: Seq<Vec<u8>>) -> Seq<Seq<u8>> {
    list.map_values(|bytes: Vec<u8>| bytes@)
}

/// The certificates that were accepted, without those that do not decode.
pub open spec fn accepted_certs(accepted: Seq<AcceptedCertificate>) -> Seq<Seq<u8>>
    decreases accepted.len(),
{
    if accepted.len() == 0 {
        Seq::empty()
    } else {
        let before = accepted_certs(accepted.drop_last());
        match base64_bytes(accepted.last().certificate_der_base64@) {
            Some(der) => before.push(der),
            None => before,
        }
    }
}

/// The keys after a key that older settings hold was taken over. That is done only
/// where no key is set up.
pub open spec fn migrated(config: Option<KeyConfig>, old_key: Option<Seq<char>>) -> KeyState {
    if config is None && old_key is Some && key_bytes(old_key->0) is Some {
        plaintext_keys(key_bytes(old_key->0)->0)
    } else {
        initial_keys(optional_config(config))
    }
}

/// A device that was picked, as a command.
pub open spec fn device_command(input: bool, device_id: Option<Seq<char>>) -> Seq<CommandData> {
    if device_id is None {
        Seq::empty()
    } else if input {
        seq![CommandData::SetInputDevice { device_id }]
    } else {
        seq![CommandData::SetOutputDevice { device_id }]
    }
}

/// What the connection is told when the client starts.
pub open spec fn startup_commands(
    settings: PersistentSettings,
    tx_pipeline: Seq<char>,
    version: Seq<char>,
    name: Seq<char>,
) -> Seq<CommandData> {
    seq![
        CommandData::UpdateAudioSettings { settings: settings.audio.spec_audio() },
        CommandData::SetVoiceMode { mode: settings.voice_mode },
        CommandData::UpdateTxPipeline { config: tx_pipeline },
    ] + device_command(true, optional_text(settings.input_device_id)) + device_command(
        false,
        optional_text(settings.output_device_id),
    ) + seq![
        CommandData::UpdateFileTransferSettings {
            enabled: settings.file_transfer.auto_download_enabled,
            rules: rule_list(settings.file_transfer.auto_download_rules@),
        },
        CommandData::LocalMessage { text: "Rumble Client v"@ + version },
        CommandData::LocalMessage { text: "Client name: "@ + name },
    ]
}

/// What is done about connecting when the client starts: nothing while no key is set
/// up; at once where the command line names a server; and where the user wants it,
/// with a word about it.
pub open spec fn launch_commands(app: RumbleApp, named: bool) -> Seq<CommandData> {
    if app.first_run_state != FirstRunState::NotNeeded {
        Seq::empty()
    } else if named {
        app_connect_commands(app)
    } else if app.autoconnect_on_launch && app.connect_address@.len() > 0 {
        seq![CommandData::LocalMessage { text: "Auto-connecting..."@ }] + app_connect_commands(app)
    } else {
        Seq::empty()
    }
}

/// What the client starts with.
#[derive(Debug)]
pub struct Launch {
    pub app: RumbleApp,
    pub commands: Commands,
    /// The certificates that are trusted, by their paths.
    pub cert_paths: Vec<String>,
    /// The certificates that the user accepted.
    pub accepted_certs: Vec<Vec<u8>>,
    /// Whether a key of older settings was taken over and is to be stored.
    pub key_migrated: bool,
}

fn choose_text(given: &Option<String>, stored: &String) -> (text: String)
    ensures
        text@ == chosen(optional_text(*given), stored@),
{
    match given {
        Some(inner) => inner.clone(),
        None => stored.clone(),
    }
}

fn choose_name(given: &Option<String>, stored: &String, id: &[u8]) -> (name: String)
    ensures
        name@ == chosen_name(optional_text(*given), stored@, id@),
{
    match given {
        Some(inner) => inner.clone(),
        None => if stored.as_str().is_empty() {
            joined("user-", hex_encode(id).as_str())
        } else {
            stored.clone()
        },
    }
}

fn push_text(list: &mut Vec<String>, text: String)
    ensures
        text_list(final(list)@) == text_list(old(list)@).push(text@),
{
    list.push(text);
    assert(text_list(list@) =~= text_list(old(list)@).push(text@));
}

/// The certificates that are trusted, by their paths.
pub fn trusted_paths(
    trust_dev_cert: bool,
    given: &Option<String>,
    stored: &Option<String>,
    environment: &Option<String>,
) -> (paths: Vec<String>)
    ensures
        text_list(paths@) == cert_paths(
            trust_dev_cert,
            optional_text(*given),
            optional_text(*stored),
            optional_text(*environment),
        ),
{
    let mut paths: Vec<String> = Vec::new();
    assert(text_list(paths@) =~= Seq::<Seq<char>>::empty());
    if trust_dev_cert {
        push_text(&mut paths, DEV_CERT_PATH.to_owned());
    }
    if let Some(path) = given {
        push_text(&mut paths, path.clone());
    } else if let Some(path) = stored {
        push_text(&mut paths, path.clone());
    }
    if let Some(path) = environment {
        push_text(&mut paths, path.clone());
    }
    assert(text_list(paths@) =~= cert_paths(
        trust_dev_cert,
        optional_text(*given),
        optional_text(*stored),
        optional_text(*environment),
    ));
    paths
}

/// The certificates that were accepted, without those that do not decode.
pub fn load_accepted(accepted: &Vec<AcceptedCertificate>) -> (certs: Vec<Vec<u8>>)
    ensures
        bytes_list(certs@) == accepted_certs(accepted@),
{
    let mut certs: Vec<Vec<u8>> = Vec::new();
    let mut i: usize = 0;
    assert(accepted@.take(0) =~= Seq::<AcceptedCertificate>::empty());
    assert(bytes_list(certs@) =~= accepted_certs(accepted@.take(0)));
    while i < accepted.len()
        invariant
            i <= accepted@.len(),
            bytes_list(certs@) == accepted_certs(accepted@.take(i as int)),
        decreases accepted@.len() - i,
    {
        assert(accepted@.take(i + 1).drop_last() =~= accepted@.take(i as int));
        let ghost before = certs@;
        if let Some(der) = base64_decode(accepted[i].certificate_der_base64.as_str()) {
            certs.push(der);
            assert(bytes_list(certs@) =~= bytes_list(before).push(der@));
        }
        i += 1;
    }
    assert(accepted@.take(i as int) =~= accepted@);
    certs
}

/// A copy of the rules for downloads.
pub fn copy_rules(rules: &Vec<AutoDownloadRule>) -> (copy: Vec<AutoDownloadRule>)
    ensures
        rule_list(copy@) == rule_list(rules@),
{
    let mut copy: Vec<AutoDownloadRule> = Vec::new();
    let mut i: usize = 0;
    while i < rules.len()
        invariant
            i <= rules@.len(),
            copy@.len() == i,
            forall|j: int|
                0 <= j < i ==> (#[trigger] copy@[j]).mime_pattern@ == rules@[j].mime_pattern@
                    && copy@[j].max_size_bytes == rules@[j].max_size_bytes,
        decreases rules@.len() - i,
    {
        copy.push(
            AutoDownloadRule {
                mime_pattern: rules[i].mime_pattern.clone(),
                max_size_bytes: rules[i].max_size_bytes,
            },
        );
        i += 1;
    }
    assert(rule_list(copy@) =~= rule_list(rules@));
    copy
}

/// The rules for downloads, as a command.
pub fn file_transfer_command(settings: &FileTransferSettings) -> (command: Command)
    ensures
        command@ == (CommandData::UpdateFileTransferSettings {
            enabled: settings.auto_download_enabled,
            rules: rule_list(settings.auto_download_rules@),
        }),
{
    Command::UpdateFileTransferSettings {
        enabled: settings.auto_download_enabled,
        rules: copy_rules(&settings.auto_download_rules),
    }
}

fn startup(settings: &PersistentSettings, tx_pipeline: String, version: &str, name: &str) -> (commands:
    Commands)
    ensures
        commands@ == startup_commands(*settings, tx_pipeline@, version@, name@),
{
    let mut commands = Commands::new();
    commands.send(Command::UpdateAudioSettings { settings: settings.audio.to_audio() });
    commands.send(Command::SetVoiceMode { mode: settings.voice_mode });
    commands.send(Command::UpdateTxPipeline { config: tx_pipeline });
    if settings.input_device_id.is_some() {
        commands.send(
            Command::SetInputDevice { device_id: copy_optional(&settings.input_device_id) },
        );
    }
    if settings.output_device_id.is_some() {
        commands.send(
            Command::SetOutputDevice { device_id: copy_optional(&settings.output_device_id) },
        );
    }
    commands.send(file_transfer_command(&settings.file_transfer));
    commands.say(joined("Rumble Client v", version));
    commands.say(joined("Client name: ", name));
    assert(commands@ =~= startup_commands(*settings, tx_pipeline@, version@, name@));
    commands
}

/// The key manager with a key of older settings taken over, and whether one was.
pub fn migrate_key(config: Option<KeyConfig>, old_key: &Option<String>) -> (result: (
    KeyManager,
    bool,
))
    ensures
        result.0@ == migrated(config, optional_text(*old_key)),
        result.1 == (config is None && old_key is Some && key_bytes((old_key->0)@) is Some),
{
    let mut manager = KeyManager::new(config);
    if manager.needs_setup() {
        if let Some(hex_key) = old_key {
            if let Some(signing_key) = parse_signing_key(hex_key.as_str()) {
                manager.import_signing_key(signing_key);
                return (manager, true);
            }
        }
    }
    (manager, false)
}

/// Whether a window shows nothing yet: no dialog is open, and nothing was noticed.
pub open spec fn is_blank(app: RumbleApp) -> bool {
    &&& !app.show_connect && !app.show_settings && !app.show_transfers
    &&& app.chat_input@ == ""@
    &&& app.pending_agent_op is None && !app.pending_file_dialog && !app.pending_save_dialog
    &&& !app.rename_modal.open && !app.move_room_modal.open && !app.download_modal.open
    &&& !app.delete_room_modal.open && !app.description_modal.open && !app.image_view_modal.open
    &&& app.settings_modal.is_closed()
    &&& !app.push_to_talk_active
    &&& app.hotkey_registration_status is None && !app.portal_hotkeys_available
    &&& app.portal_shortcuts@.len() == 0
    &&& app.toast_manager@ == Seq::<ToastData>::empty()
    &&& app.prev_connection_state@ == ConnectionData::Disconnected
    &&& !app.prev_self_muted
    &&& app.prev_user_ids_in_room@.len() == 0 && !app.prev_user_ids_initialized
    &&& app.prev_chat_count == 0
}

/// Whether `app` is a client that has just started, from these arguments, settings and
/// keys.
pub open spec fn is_started(
    app: RumbleApp,
    args: Args,
    settings: PersistentSettings,
    keys: KeyState,
    id: Seq<u8>,
) -> bool {
    let trust = args.trust_dev_cert || settings.trust_dev_cert;
    &&& is_blank(app)
    &&& app.key_manager@ == keys
    &&& app.first_run_state == if keys.config is None {
        FirstRunState::SelectMethod
    } else {
        FirstRunState::NotNeeded
    }
    &&& optional_seed(app.signing_key) == keys.cached
    &&& app.connect_address@ == chosen(optional_text(args.server), settings.server_address@)
    &&& app.connect_password@ == chosen(optional_text(args.password), settings.server_password@)
    &&& app.client_name@ == chosen_name(optional_text(args.name), settings.client_name@, id)
    &&& app.trust_dev_cert == trust
    &&& app.autoconnect_on_launch == settings.autoconnect_on_launch
    &&& app.persistent_settings.server_address@ == app.connect_address@
    &&& app.persistent_settings.server_password@ == app.connect_password@
    &&& app.persistent_settings.client_name@ == app.client_name@
    &&& app.persistent_settings == (PersistentSettings {
        server_address: app.persistent_settings.server_address,
        server_password: app.persistent_settings.server_password,
        client_name: app.persistent_settings.client_name,
        trust_dev_cert: trust,
        ..settings
    })
}

fn blank_app(
    settings: PersistentSettings,
    key_manager: KeyManager,
    address: String,
    password: String,
    name: String,
    trust_dev_cert: bool,
) -> (app: RumbleApp)
    ensures
        is_blank(app),
        app.persistent_settings == settings,
        app.key_manager == key_manager,
        app.connect_address == address,
        app.connect_password == password,
        app.client_name == name,
        app.trust_dev_cert == trust_dev_cert,
        app.autoconnect_on_launch == settings.autoconnect_on_launch,
        app.first_run_state == if key_manager@.config is None {
            FirstRunState::SelectMethod
        } else {
            FirstRunState::NotNeeded
        },
        optional_seed(app.signing_key) == key_manager@.cached,
{
    let first_run_state = if key_manager.needs_setup() {
        FirstRunState::SelectMethod
    } else {
        FirstRunState::NotNeeded
    };
    let signing_key = key_manager.signing_key();
    let autoconnect_on_launch = settings.autoconnect_on_launch;
    RumbleApp {
        show_connect: false,
        show_settings: false,
        show_transfers: false,
        connect_address: address,
        connect_password: password,
        trust_dev_cert,
        chat_input: "".to_owned(),
        client_name: name,
        key_manager,
        first_run_state,
        signing_key,
        pending_agent_op: None,
        pending_file_dialog: false,
        pending_save_dialog: false,
        persistent_settings: settings,
        autoconnect_on_launch,
        rename_modal: RenameModalState::default(),
        move_room_modal: MoveRoomModalState::default(),
        download_modal: DownloadModalState::default(),
        delete_room_modal: DeleteRoomModalState::default(),
        description_modal: DescriptionModalState::default(),
        image_view_modal: ImageViewModalState::default(),
        settings_modal: crate::client::SettingsModalState::default(),
        push_to_talk_active: false,
        hotkey_registration_status: None,
        portal_hotkeys_available: false,
        portal_shortcuts: Vec::new(),
        toast_manager: ToastManager::new(),
        prev_connection_state: ConnectionState::Disconnected,
        prev_self_muted: false,
        prev_user_ids_in_room: Vec::new(),
        prev_user_ids_initialized: false,
        prev_chat_count: 0,
    }
}

fn launch_connecting(app: &RumbleApp, named: bool) -> (commands: Commands)
    ensures
        commands@ == launch_commands(*app, named),
{
    let ready = match &app.first_run_state {
        FirstRunState::NotNeeded => true,
        _ => false,
    };
    if !ready {
        return Commands::new();
    }
    if named {
        return app.connect();
    }
    if app.autoconnect_on_launch && !app.connect_address.as_str().is_empty() {
        let mut commands = Commands::new();
        commands.say("Auto-connecting...".to_owned());
        append_commands(&mut commands, app.connect());
        assert(commands@ =~= launch_commands(*app, named));
        return commands;
    }
    Commands::new()
}

impl RumbleApp {
    /// Starts a client. `environment` is the path of a certificate that the environment
    /// names, `tx_pipeline` the processors as JSON, and `id` sixteen bytes from which a
    /// name is made up where there is none.
    pub fn new_with_id(
        args: &Args,
        settings: PersistentSettings,
        config: Option<KeyConfig>,
        environment: &Option<String>,
        tx_pipeline: String,
        version: &str,
        id: &[u8],
    ) -> (launch: Launch)
        ensures
            ({
                let keys = migrated(config, optional_text(settings.identity_private_key_hex));
                &&& is_started(launch.app, *args, settings, keys, id@)
                &&& launch.commands@ == startup_commands(
                    settings,
                    tx_pipeline@,
                    version@,
                    launch.app.client_name@,
                ) + launch_commands(launch.app, args.server is Some)
                &&& text_list(launch.cert_paths@) == cert_paths(
                    args.trust_dev_cert || settings.trust_dev_cert,
                    optional_text(args.cert),
                    optional_text(settings.custom_cert_path),
                    optional_text(*environment),
                )
                &&& bytes_list(launch.accepted_certs@) == accepted_certs(
                    settings.accepted_certificates@,
                )
                &&& launch.key_migrated == (config is None
                    && settings.identity_private_key_hex is Some && key_bytes(
                    (settings.identity_private_key_hex->0)@,
                ) is Some)
            }),
    {
        let (key_manager, key_migrated) = migrate_key(config, &settings.identity_private_key_hex);
        let address = choose_text(&args.server, &settings.server_address);
        let password = choose_text(&args.password, &settings.server_password);
        let name = choose_name(&args.name, &settings.client_name, id);
        let trust_dev_cert = args.trust_dev_cert || settings.trust_dev_cert;
        let cert_paths = trusted_paths(
            trust_dev_cert,
            &args.cert,
            &settings.custom_cert_path,
            environment,
        );
        let accepted_certs = load_accepted(&settings.accepted_certificates);
        let mut commands = startup(&settings, tx_pipeline, version, name.as_str());
        let mut stored = settings;
        stored.server_address = address.clone();
        stored.server_password = password.clone();
        stored.client_name = name.clone();
        stored.trust_dev_cert = trust_dev_cert;
        let app = blank_app(stored, key_manager, address, password, name, trust_dev_cert);
        append_commands(&mut commands, launch_connecting(&app, args.server.is_some()));
        Launch { app, commands, cert_paths, accepted_certs, key_migrated }
    }

    /// Starts a client, with a fresh number for its name.
    pub fn new(
        args: &Args,
        settings: PersistentSettings,
        config: Option<KeyConfig>,
        environment: &Option<String>,
        tx_pipeline: String,
        version: &str,
    ) -> (launch: Launch)
        ensures
            ({
                let keys = migrated(config, optional_text(settings.identity_private_key_hex));
                &&& exists|id: Seq<u8>|
                    id.len() == 16 && #[trigger] is_started(launch.app, *args, settings, keys, id)
                &&& launch.commands@ == startup_commands(
                    settings,
                    tx_pipeline@,
                    version@,
                    launch.app.client_name@,
                ) + launch_commands(launch.app, args.server is Some)
                &&& text_list(launch.cert_paths@) == cert_paths(
                    args.trust_dev_cert || settings.trust_dev_cert,
                    optional_text(args.cert),
                    optional_text(settings.custom_cert_path),
                    optional_text(*environment),
                )
                &&& bytes_list(launch.accepted_certs@) == accepted_certs(
                    settings.accepted_certificates@,
                )
                &&& launch.key_migrated == (config is None
                    && settings.identity_private_key_hex is Some && key_bytes(
                    (settings.identity_private_key_hex->0)@,
                ) is Some)
            }),
    {
        let id = random_uuid_bytes();
        RumbleApp::new_with_id(
            args,
            settings,
            config,
            environment,
            tx_pipeline,
            version,
            id.as_slice(),
        )
    }
}

/// A client without a key does not connect when it starts, whatever the command line
/// and the settings say.
pub proof fn no_connection_without_setup(
    app: RumbleApp,
    args: Args,
    settings: PersistentSettings,
    keys: KeyState,
    id: Seq<u8>,
    named: bool,
)
    requires
        is_started(app, args, settings, keys, id),
        keys.config is None,
    ensures
        launch_commands(app, named).len() == 0,
{
}

/// A key that older settings hold is the key of the client from then on.
pub proof fn old_key_is_kept(old_key: Seq<char>)
    requires
        key_bytes(old_key) is Some,
    ensures
        migrated(None, Some(old_key)).cached == key_bytes(old_key),
        migrated(None, Some(old_key)).config is Some,
{
}

} // verus!
