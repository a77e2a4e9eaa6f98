//! Connecting to a server, and what the user is asked about its certificate.

use vstd::prelude::*;

use crate::client::{PendingCertificate, RumbleApp};
use crate::commands::{Command, CommandData, Commands};
use crate::encoding::{base64_bytes, base64_encode, base64_text};
use crate::key_manager::KeyState;
use crate::settings::{AcceptedCertificate, PersistentSettings};
use crate::signing::key_bytes;
use crate::text::{joined3, same_text, trim, trimmed};

verus! {

/// The address that an entry stands for: the usual one where nothing was entered.
pub open spec fn address_of(entry: Seq<char>) -> Seq<char> {
    if trimmed(entry).len() == 0 {
        "127.0.0.1:5000"@
    } else {
        trimmed(entry)
    }
}

/// The password that an entry stands for: none where nothing was entered.
pub open spec fn password_of(entry: Seq<char>) -> Option<Seq<char>> {
    if trimmed(entry).len() == 0 {
        None
    } else {
        Some(trimmed(entry))
    }
}

/// What is done to connect with the keys at hand, under a name, to what was entered.
pub open spec fn connect_commands(
    keys: KeyState,
    address: Seq<char>,
    name: Seq<char>,
    password: Seq<char>,
) -> Seq<CommandData> {
    if keys.config is None || key_bytes(keys.config->0.public_key_hex) is None {
        seq![
            CommandData::LocalMessage {
                text:
                    "Cannot connect: No identity key configured. Please complete first-run setup."@,
            },
        ]
    } else if keys.signer() is None {
        if keys.locked() {
            seq![
                CommandData::LocalMessage {
                    text: "Cannot connect: Key is encrypted. Please unlock it in settings."@,
                },
            ]
        } else {
            seq![
                CommandData::LocalMessage {
                    text: "Cannot connect: Failed to create signer for key."@,
                },
            ]
        }
    } else {
        seq![
            CommandData::LocalMessage { text: "Connecting to "@ + address_of(address) + "..."@ },
            CommandData::Connect {
                addr: address_of(address),
                name,
                public_key: key_bytes(keys.config->0.public_key_hex)->0,
                signer: keys.signer()->0,
                password: password_of(password),
            },
        ]
    }
}

/// The commands with which an app connects.
pub open spec fn app_connect_commands(app: RumbleApp) -> Seq<CommandData> {
    connect_commands(
        app.key_manager@,
        app.connect_address@,
        app.client_name@,
        app.connect_password@,
    )
}

/// The commands with which an app connects again.
pub open spec fn reconnect_commands(app: RumbleApp) -> Seq<CommandData> {
    seq![
        CommandData::LocalMessage { text: "Reconnecting to "@ + app.connect_address@ + "..."@ },
    ] + app_connect_commands(app)
}

/// What is done when the user rejects the certificate of a server.
pub open spec fn rejection_commands(server_name: Seq<char>) -> Seq<CommandData> {
    seq![
        CommandData::RejectCertificate,
        CommandData::LocalMessage { text: "Rejected certificate for "@ + server_name },
    ]
}

/// Whether a certificate with this fingerprint was accepted before.
pub open spec fn is_accepted(accepted: Seq<AcceptedCertificate>, fingerprint: Seq<char>) -> bool {
    exists|i: int|
        0 <= i < accepted.len() && (#[trigger] accepted[i]).fingerprint_hex@ == fingerprint
}

/// What is done when the user accepts the certificate of a server.
pub open spec fn acceptance_commands(server_name: Seq<char>) -> Seq<CommandData> {
    seq![
        CommandData::AcceptCertificate,
        CommandData::LocalMessage {
            text: "Accepted certificate for "@ + server_name
                + " (saved for future connections)"@,
        },
    ]
}

/// Whether `after` is `before` with a certificate remembered: `added` at the end,
/// unless one with its fingerprint was there.
pub open spec fn remembers(
    before: PersistentSettings,
    after: PersistentSettings,
    certificate: PendingCertificate,
    added: bool,
) -> bool {
    let list = after.accepted_certificates@;
    &&& added == !is_accepted(before.accepted_certificates@, certificate.fingerprint_hex@)
    &&& !added ==> after == before
    &&& added ==> {
        &&& list.len() == before.accepted_certificates@.len() + 1
        &&& list.drop_last() == before.accepted_certificates@
        &&& list.last().server_name@ == certificate.server_name@
        &&& list.last().fingerprint_hex@ == certificate.fingerprint_hex@
        &&& list.last().certificate_der_base64@ == base64_text(certificate.certificate_der@)
        &&& base64_bytes(list.last().certificate_der_base64@) == Some(certificate.certificate_der@)
        &&& after == (PersistentSettings {
            accepted_certificates: after.accepted_certificates,
            ..before
        })
    }
}

fn acceptance(certificate: &PendingCertificate) -> (commands: Commands)
    ensures
        commands@ == acceptance_commands(certificate.server_name@),
{
    let mut commands = Commands::new();
    commands.send(Command::AcceptCertificate);
    commands.say(
        joined3(
            "Accepted certificate for ",
            certificate.server_name.as_str(),
            " (saved for future connections)",
        ),
    );
    assert(commands@ =~= acceptance_commands(certificate.server_name@));
    commands
}

impl PersistentSettings {
    /// Remembers a certificate, unless one with its fingerprint is remembered already.
    pub fn remember_certificate(&mut self, certificate: &PendingCertificate) -> (added: bool)
        ensures
            remembers(*old(self), *final(self), *certificate, added),
    {
        if was_accepted(&self.accepted_certificates, certificate.fingerprint_hex.as_str()) {
            return false;
        }
        self.accepted_certificates.push(
            AcceptedCertificate {
                server_name: certificate.server_name.clone(),
                fingerprint_hex: certificate.fingerprint_hex.clone(),
                certificate_der_base64: base64_encode(certificate.certificate_der.as_slice()),
            },
        );
        assert(self.accepted_certificates@.drop_last() =~= old(self).accepted_certificates@);
        true
    }
}

impl RumbleApp {
    /// Connect to the server using current settings.
    pub fn connect(&self) -> (commands: Commands)
        ensures
            commands@ == app_connect_commands(*self),
    {
        let public_key = match self.key_manager.public_key_bytes() {
            Some(key) => key,
            None => {
                return Commands::one(
                    Command::LocalMessage {
                        text:
                            "Cannot connect: No identity key configured. Please complete first-run setup.".to_owned(),
                    },
                );
            },
        };
        let signer = match self.key_manager.create_signer() {
            Some(signer) => signer,
            None => {
                let text = if self.key_manager.needs_unlock() {
                    "Cannot connect: Key is encrypted. Please unlock it in settings.".to_owned()
                } else {
                    "Cannot connect: Failed to create signer for key.".to_owned()
                };
                return Commands::one(Command::LocalMessage { text });
            },
        };
        let entry = trim(self.connect_address.as_str());
        let addr = if entry.as_str().is_empty() {
            "127.0.0.1:5000".to_owned()
        } else {
            entry
        };
        let entry = trim(self.connect_password.as_str());
        let password: Option<String> = if entry.as_str().is_empty() {
            None
        } else {
            Some(entry)
        };
        let mut commands = Commands::new();
        commands.say(joined3("Connecting to ", addr.as_str(), "..."));
        commands.send(
            Command::Connect { addr, name: self.client_name.clone(), public_key, signer, password },
        );
        assert(commands@ =~= app_connect_commands(*self));
        commands
    }

    /// Opens the dialog for a connection.
    pub fn open_connect(&mut self)
        ensures
            *final(self) == (RumbleApp { show_connect: true, ..*old(self) }),
    {
        self.show_connect = true;
    }

    /// Closes the dialog for a connection, which is then made or not.
    pub fn close_connect(&mut self, confirm: bool) -> (commands: Commands)
        ensures
            commands@ == if confirm {
                app_connect_commands(*old(self))
            } else {
                Seq::empty()
            },
            *final(self) == (RumbleApp { show_connect: false, ..*old(self) }),
    {
        let commands = if confirm {
            self.connect()
        } else {
            Commands::new()
        };
        self.show_connect = false;
        commands
    }

    /// Attempt to reconnect with the last known connection parameters.
    pub fn reconnect(&self) -> (commands: Commands)
        ensures
            commands@ == reconnect_commands(*self),
    {
        let mut commands = Commands::new();
        commands.say(joined3("Reconnecting to ", self.connect_address.as_str(), "..."));
        let connecting = self.connect();
        let ghost second = connecting@;
        append_commands(&mut commands, connecting);
        assert(commands@ =~= seq![
            CommandData::LocalMessage {
                text: "Reconnecting to "@ + self.connect_address@ + "..."@,
            },
        ] + second);
        commands
    }

    /// The user accepts a certificate: it is remembered, unless it is already, and the
    /// connection goes on. Returns the commands, and whether the settings changed.
    pub fn accept_certificate(&mut self, certificate: &PendingCertificate) -> (result: (
        Commands,
        bool,
    ))
        ensures
            result.0@ == acceptance_commands(certificate.server_name@),
            remembers(
                old(self).persistent_settings,
                final(self).persistent_settings,
                *certificate,
                result.1,
            ),
            *final(self) == (RumbleApp {
                persistent_settings: final(self).persistent_settings,
                ..*old(self)
            }),
    {
        let changed = self.persistent_settings.remember_certificate(certificate);
        (acceptance(certificate), changed)
    }

    /// The user rejects a certificate.
    pub fn reject_certificate(certificate: &PendingCertificate) -> (commands: Commands)
        ensures
            commands@ == rejection_commands(certificate.server_name@),
    {
        let mut commands = Commands::new();
        commands.send(Command::RejectCertificate);
        commands.say(
            crate::text::joined("Rejected certificate for ", certificate.server_name.as_str()),
        );
        assert(commands@ =~= seq![
            CommandData::RejectCertificate,
            CommandData::LocalMessage {
                text: "Rejected certificate for "@ + certificate.server_name@,
            },
        ]);
        commands
    }
}

/// Adds commands at the end of others.
pub fn append_commands(commands: &mut Commands, more: Commands)
    ensures
        final(commands)@ == old(commands)@ + more@,
{
    let mut tail = more;
    commands.list.append(&mut tail.list);
    assert(commands@ =~= old(commands)@ + more@);
}

fn was_accepted(accepted: &Vec<AcceptedCertificate>, fingerprint: &str) -> (found: bool)
    ensures
        found == is_accepted(accepted@, fingerprint@),
{
    let mut i: usize = 0;
    while i < accepted.len()
        invariant
            i <= accepted@.len(),
            forall|j: int|
                0 <= j < i ==> (#[trigger] accepted@[j]).fingerprint_hex@ != fingerprint@,
        decreases accepted@.len() - i,
    {
        if same_text(accepted[i].fingerprint_hex.as_str(), fingerprint) {
            return true;
        }
        i += 1;
    }
    false
}

/// A certificate that was accepted stays accepted, and is not asked about twice.
pub proof fn accepted_once(
    accepted: Seq<AcceptedCertificate>,
    certificate: AcceptedCertificate,
    fingerprint: Seq<char>,
)
    ensures
        is_accepted(accepted.push(certificate), certificate.fingerprint_hex@),
        is_accepted(accepted, fingerprint) ==> is_accepted(
            accepted.push(certificate),
            fingerprint,
        ),
{
    let now = accepted.push(certificate);
    assert(now[accepted.len() as int].fingerprint_hex@ == certificate.fingerprint_hex@);
    if is_accepted(accepted, fingerprint) {
        let i = choose|i: int|
            0 <= i < accepted.len() && (#[trigger] accepted[i]).fingerprint_hex@ == fingerprint;
        assert(now[i].fingerprint_hex@ == fingerprint);
    }
}

/// A client without a key, or with one that is locked, tells the user so and does not
/// connect; one whose key is at hand does.
pub proof fn connecting_needs_a_key(
    keys: KeyState,
    address: Seq<char>,
    name: Seq<char>,
    password: Seq<char>,
)
    ensures
        ({
            let commands = connect_commands(keys, address, name, password);
            let connects = exists|i: int| 0 <= i < commands.len() && commands[i] is Connect;
            connects <==> keys.signer() is Some && keys.config is Some && key_bytes(
                keys.config->0.public_key_hex,
            ) is Some
        }),
        keys.locked() ==> keys.signer() is None,
{
    let commands = connect_commands(keys, address, name, password);
    if keys.config is Some && key_bytes(keys.config->0.public_key_hex) is Some && keys.signer()
        is Some {
        assert(commands[1] is Connect);
    }
}

} // verus!
