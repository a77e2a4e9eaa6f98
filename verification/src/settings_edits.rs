//! Changes that the user makes in the settings: to the encoder, to file transfers and to
//! which categories are shown.

use vstd::prelude::*;

use crate::client::SettingsCategory;
use crate::commands::{rule_list, RuleData};
use crate::settings::{AudioSettings, AutoDownloadRule, FileTransferSettings};
use crate::sorting::lemma_push_contains;

verus! {

impl Default for SettingsCategory {
    fn default() -> (category: Self)
        ensures
            category == SettingsCategory::Connection,
    {
        SettingsCategory::Connection
    }
}

impl SettingsCategory {
    /// Every category, in the order of the sidebar.
    pub fn all() -> (categories: Vec<SettingsCategory>)
        ensures
            categories@ == seq![
                SettingsCategory::Connection,
                SettingsCategory::Devices,
                SettingsCategory::Voice,
                SettingsCategory::Sounds,
                SettingsCategory::Processing,
                SettingsCategory::Encoder,
                SettingsCategory::Chat,
                SettingsCategory::FileTransfer,
                SettingsCategory::Keyboard,
                SettingsCategory::Statistics,
            ],
    {
        vec![
            SettingsCategory::Connection,
            SettingsCategory::Devices,
            SettingsCategory::Voice,
            SettingsCategory::Sounds,
            SettingsCategory::Processing,
            SettingsCategory::Encoder,
            SettingsCategory::Chat,
            SettingsCategory::FileTransfer,
            SettingsCategory::Keyboard,
            SettingsCategory::Statistics,
        ]
    }

    /// The name of a category in the sidebar.
    pub fn label(&self) -> (name: &'static str)
        ensures
            name@ == match *self {
                SettingsCategory::Connection => "🔗 Connection"@,
                SettingsCategory::Devices => "🔊 Devices"@,
                SettingsCategory::Voice => "🎤 Voice"@,
                SettingsCategory::Sounds => "🔔 Sounds"@,
                SettingsCategory::Processing => "⚙ Processing"@,
                SettingsCategory::Encoder => "📦 Encoder"@,
                SettingsCategory::Chat => "💬 Chat"@,
                SettingsCategory::FileTransfer => "📂 File Transfer"@,
                SettingsCategory::Keyboard => "⌨ Keyboard"@,
                SettingsCategory::Statistics => "📊 Statistics"@,
            },
    {
        match self {
            SettingsCategory::Connection => "🔗 Connection",
            SettingsCategory::Devices => "🔊 Devices",
            SettingsCategory::Voice => "🎤 Voice",
            SettingsCategory::Sounds => "🔔 Sounds",
            SettingsCategory::Processing => "⚙ Processing",
            SettingsCategory::Encoder => "📦 Encoder",
            SettingsCategory::Chat => "💬 Chat",
            SettingsCategory::FileTransfer => "📂 File Transfer",
            SettingsCategory::Keyboard => "⌨ Keyboard",
            SettingsCategory::Statistics => "📊 Statistics",
        }
    }
}

/// Whether a category is shown after a click. A plain click shows the one that was
/// clicked and no other. With the control key the category is toggled, but the last one
/// stays.
pub open spec fn shown_after(
    shown: Seq<SettingsCategory>,
    clicked: SettingsCategory,
    ctrl: bool,
    category: SettingsCategory,
) -> bool {
    if !ctrl {
        category == clicked
    } else if shown.contains(clicked) {
        if exists|other: SettingsCategory| other != clicked && shown.contains(other) {
            category != clicked && shown.contains(category)
        } else {
            category == clicked
        }
    } else {
        category == clicked || shown.contains(category)
    }
}

/// Whether a category is among those shown.
pub fn is_shown(shown: &Vec<SettingsCategory>, category: SettingsCategory) -> (found: bool)
    ensures
        found == shown@.contains(category),
{
    let mut i: usize = 0;
    while i < shown.len()
        invariant
            i <= shown@.len(),
            forall|j: int| 0 <= j < i ==> shown@[j] != category,
        decreases shown@.len() - i,
    {
        if shown[i] == category {
            return true;
        }
        i += 1;
    }
    false
}

/// The categories that are shown after a click.
pub fn click_category(
    shown: &Vec<SettingsCategory>,
    clicked: SettingsCategory,
    ctrl: bool,
) -> (after: Vec<SettingsCategory>)
    ensures
        forall|category: SettingsCategory|
            #![trigger after@.contains(category)]
            after@.contains(category) == shown_after(shown@, clicked, ctrl, category),
        after@.len() > 0,
{
    let mut after: Vec<SettingsCategory> = Vec::new();
    let ghost selected = shown@.contains(clicked);
    let was_shown = is_shown(shown, clicked);
    if ctrl {
        let mut i: usize = 0;
        while i < shown.len()
            invariant
                i <= shown@.len(),
                forall|category: SettingsCategory|
                    #![trigger after@.contains(category)]
                    after@.contains(category) <==> category != clicked && shown@.take(
                        i as int,
                    ).contains(category),
            decreases shown@.len() - i,
        {
            let one: SettingsCategory = shown[i];
            let ghost before = after@;
            let ghost seen = shown@.take(i as int);
            assert(shown@.take(i + 1) =~= seen.push(one));
            if one != clicked {
                after.push(one);
            }
            assert forall|category: SettingsCategory| #[trigger]
                after@.contains(category) <==> category != clicked && shown@.take(i + 1).contains(
                    category,
                ) by {
                lemma_push_contains(seen, one, category);
                lemma_push_contains(before, one, category);
            }
            i += 1;
        }
        assert(shown@.take(i as int) =~= shown@);
    }
    let ghost rest = after@;
    if !ctrl || !was_shown || after.len() == 0 {
        after.push(clicked);
    }
    proof {
        if ctrl {
            if rest.len() > 0 {
                assert(rest.contains(rest[0]));
            }
            assert((exists|other: SettingsCategory| other != clicked && shown@.contains(other))
                <==> rest.len() > 0) by {
                if exists|other: SettingsCategory| other != clicked && shown@.contains(other) {
                    let other = choose|other: SettingsCategory|
                        other != clicked && shown@.contains(other);
                    assert(rest.contains(other));
                }
            }
        }
        assert forall|category: SettingsCategory|
            #![trigger after@.contains(category)]
            after@.contains(category) == shown_after(shown@, clicked, ctrl, category) by {
            lemma_push_contains(rest, clicked, category);
            if ctrl {
                assert(rest.contains(category) <==> category != clicked && shown@.contains(
                    category,
                ));
            }
        }
    }
    after
}

/// The bitrates that are offered.
#[derive(Debug, Clone, Copy, PartialEq, Eq, Structural)]
pub enum Bitrate {
    Low,
    Medium,
    High,
    VeryHigh,
}

impl Bitrate {
    pub open spec fn spec_bits(self) -> i32 {
        match self {
            Bitrate::Low => 24000i32,
            Bitrate::Medium => 32000i32,
            Bitrate::High => 64000i32,
            Bitrate::VeryHigh => 96000i32,
        }
    }

    /// The bits per second.
    pub fn bits(self) -> (bits: i32)
        ensures
            bits == self.spec_bits(),
    {
        match self {
            Bitrate::Low => 24000,
            Bitrate::Medium => 32000,
            Bitrate::High => 64000,
            Bitrate::VeryHigh => 96000,
        }
    }
}

/// A change to the encoder.
#[derive(Debug, Clone, Copy, PartialEq, Eq, Structural)]
pub enum EncoderEdit {
    Fec(bool),
    Bitrate(Bitrate),
    Complexity(i32),
    JitterDelay(u32),
    PacketLoss(i32),
}

/// A number brought into a range.
pub open spec fn clamped(value: int, low: int, high: int) -> int {
    if value < low {
        low
    } else if value > high {
        high
    } else {
        value
    }
}

/// The encoder after a change. Sliders keep their numbers in range.
pub open spec fn encoder_after(settings: AudioSettings, edit: EncoderEdit) -> AudioSettings {
    match edit {
        EncoderEdit::Fec(on) => AudioSettings { fec_enabled: on, ..settings },
        EncoderEdit::Bitrate(rate) => AudioSettings { bitrate: rate.spec_bits(), ..settings },
        EncoderEdit::Complexity(value) => AudioSettings {
            encoder_complexity: clamped(value as int, 0, 10) as i32,
            ..settings
        },
        EncoderEdit::JitterDelay(value) => AudioSettings {
            jitter_buffer_delay_packets: clamped(value as int, 1, 10) as u32,
            ..settings
        },
        EncoderEdit::PacketLoss(value) => AudioSettings {
            packet_loss_percent: clamped(value as int, 0, 25) as i32,
            ..settings
        },
    }
}

fn clamp_i32(value: i32, low: i32, high: i32) -> (result: i32)
    requires
        low <= high,
    ensures
        result == clamped(value as int, low as int, high as int),
{
    if value < low {
        low
    } else if value > high {
        high
    } else {
        value
    }
}

impl AudioSettings {
    /// Makes a change to the encoder.
    pub fn edit(&mut self, edit: EncoderEdit)
        ensures
            *final(self) == encoder_after(*old(self), edit),
    {
        match edit {
            EncoderEdit::Fec(on) => {
                self.fec_enabled = on;
            },
            EncoderEdit::Bitrate(rate) => {
                self.bitrate = rate.bits();
            },
            EncoderEdit::Complexity(value) => {
                self.encoder_complexity = clamp_i32(value, 0, 10);
            },
            EncoderEdit::JitterDelay(value) => {
                self.jitter_buffer_delay_packets = if value < 1 {
                    1
                } else if value > 10 {
                    10
                } else {
                    value
                };
            },
            EncoderEdit::PacketLoss(value) => {
                self.packet_loss_percent = clamp_i32(value, 0, 25);
            },
        }
    }

    /// The milliseconds by which playback lags: twenty for each packet of the buffer.
    pub fn playback_delay_ms(&self) -> (delay: u64)
        ensures
            delay == 20 * self.jitter_buffer_delay_packets,
    {
        self.jitter_buffer_delay_packets as u64 * 20
    }
}

/// A change to file transfers. Sizes are in megabytes, speeds in kilobytes per second.
#[derive(Debug)]
pub enum FileEdit {
    AutoDownload(bool),
    Pattern { rule: usize, pattern: String },
    MaxSize { rule: usize, megabytes: u64 },
    RemoveRule(usize),
    AddRule,
    DownloadLimit(u64),
    UploadLimit(u64),
    SeedAfterDownload(bool),
    CleanupOnExit(bool),
    AutoSyncHistory(bool),
}

/// The settings of file transfers, by the texts of the rules.
pub ghost struct FileSettingsData {
    pub auto_download_enabled: bool,
    pub rules: Seq<RuleData>,
    pub download_speed_limit: u64,
    pub upload_speed_limit: u64,
    pub seed_after_download: bool,
    pub cleanup_on_exit: bool,
    pub auto_sync_history: bool,
}

impl View for FileTransferSettings {
    type V = FileSettingsData;

    open spec fn view(&self) -> FileSettingsData {
        FileSettingsData {
            auto_download_enabled: self.auto_download_enabled,
            rules: rule_list(self.auto_download_rules@),
            download_speed_limit: self.download_speed_limit,
            upload_speed_limit: self.upload_speed_limit,
            seed_after_download: self.seed_after_download,
            cleanup_on_exit: self.cleanup_on_exit,
            auto_sync_history: self.auto_sync_history,
        }
    }
}

/// The bytes of megabytes, of which a rule takes up to a thousand.
pub open spec fn rule_limit(megabytes: u64) -> u64 {
    (clamped(megabytes as int, 0, 1000) * 1024 * 1024) as u64
}

/// The bytes of kilobytes, of which a limit takes up to a hundred thousand.
pub open spec fn speed_limit(kilobytes: u64) -> u64 {
    (clamped(kilobytes as int, 0, 100000) * 1024) as u64
}

/// The settings of file transfers after a change.
pub open spec fn files_after(settings: FileSettingsData, edit: FileEdit) -> FileSettingsData {
    match edit {
        FileEdit::AutoDownload(on) => FileSettingsData { auto_download_enabled: on, ..settings },
        FileEdit::Pattern { rule, pattern } => FileSettingsData {
            rules: settings.rules.update(
                rule as int,
                RuleData { mime_pattern: pattern@, ..settings.rules[rule as int] },
            ),
            ..settings
        },
        FileEdit::MaxSize { rule, megabytes } => FileSettingsData {
            rules: settings.rules.update(
                rule as int,
                RuleData { max_size_bytes: rule_limit(megabytes), ..settings.rules[rule as int] },
            ),
            ..settings
        },
        FileEdit::RemoveRule(rule) => FileSettingsData {
            rules: settings.rules.remove(rule as int),
            ..settings
        },
        FileEdit::AddRule => FileSettingsData {
            rules: settings.rules.push(
                RuleData { mime_pattern: ""@, max_size_bytes: rule_limit(10) },
            ),
            ..settings
        },
        FileEdit::DownloadLimit(kilobytes) => FileSettingsData {
            download_speed_limit: speed_limit(kilobytes),
            ..settings
        },
        FileEdit::UploadLimit(kilobytes) => FileSettingsData {
            upload_speed_limit: speed_limit(kilobytes),
            ..settings
        },
        FileEdit::SeedAfterDownload(on) => FileSettingsData { seed_after_download: on, ..settings },
        FileEdit::CleanupOnExit(on) => FileSettingsData { cleanup_on_exit: on, ..settings },
        FileEdit::AutoSyncHistory(on) => FileSettingsData { auto_sync_history: on, ..settings },
    }
}

/// Whether a change names a rule that there is, or none.
pub open spec fn names_rule(settings: FileSettingsData, edit: FileEdit) -> bool {
    match edit {
        FileEdit::Pattern { rule, .. } => rule < settings.rules.len(),
        FileEdit::MaxSize { rule, .. } => rule < settings.rules.len(),
        FileEdit::RemoveRule(rule) => rule < settings.rules.len(),
        _ => true,
    }
}

fn kilobytes_to_bytes(kilobytes: u64) -> (bytes: u64)
    ensures
        bytes == speed_limit(kilobytes),
{
    if kilobytes > 100_000 {
        102_400_000
    } else {
        kilobytes * 1024
    }
}

fn megabytes_to_bytes(megabytes: u64) -> (bytes: u64)
    ensures
        bytes == rule_limit(megabytes),
{
    if megabytes > 1000 {
        1_048_576_000
    } else {
        megabytes * 1024 * 1024
    }
}

impl FileTransferSettings {
    /// Makes a change to file transfers.
    pub fn edit(&mut self, edit: FileEdit)
        requires
            names_rule(old(self)@, edit),
        ensures
            final(self)@ == files_after(old(self)@, edit),
    {
        let ghost before = self@;
        match edit {
            FileEdit::AutoDownload(on) => {
                self.auto_download_enabled = on;
            },
            FileEdit::Pattern { rule, pattern } => {
                self.set_rule(rule, Some(pattern), None);
            },
            FileEdit::MaxSize { rule, megabytes } => {
                self.set_rule(rule, None, Some(megabytes_to_bytes(megabytes)));
            },
            FileEdit::RemoveRule(rule) => {
                let _ = self.auto_download_rules.remove(rule);
                assert(self@.rules =~= before.rules.remove(rule as int));
            },
            FileEdit::AddRule => {
                self.auto_download_rules.push(
                    AutoDownloadRule {
                        mime_pattern: "".to_owned(),
                        max_size_bytes: megabytes_to_bytes(10),
                    },
                );
                assert(self@.rules =~= before.rules.push(
                    RuleData { mime_pattern: ""@, max_size_bytes: rule_limit(10) },
                ));
            },
            FileEdit::DownloadLimit(kilobytes) => {
                self.download_speed_limit = kilobytes_to_bytes(kilobytes);
            },
            FileEdit::UploadLimit(kilobytes) => {
                self.upload_speed_limit = kilobytes_to_bytes(kilobytes);
            },
            FileEdit::SeedAfterDownload(on) => {
                self.seed_after_download = on;
            },
            FileEdit::CleanupOnExit(on) => {
                self.cleanup_on_exit = on;
            },
            FileEdit::AutoSyncHistory(on) => {
                self.auto_sync_history = on;
            },
        }
    }

    fn set_rule(&mut self, rule: usize, pattern: Option<String>, limit: Option<u64>)
        requires
            rule < old(self).auto_download_rules@.len(),
        ensures
            final(self)@ == (FileSettingsData {
                rules: old(self)@.rules.update(
                    rule as int,
                    RuleData {
                        mime_pattern: match pattern {
                            Some(text) => text@,
                            None => old(self)@.rules[rule as int].mime_pattern,
                        },
                        max_size_bytes: match limit {
                            Some(bytes) => bytes,
                            None => old(self)@.rules[rule as int].max_size_bytes,
                        },
                    },
                ),
                ..old(self)@
            }),
    {
        let ghost before = self@;
        let mime_pattern = match pattern {
            Some(text) => text,
            None => self.auto_download_rules[rule].mime_pattern.clone(),
        };
        let max_size_bytes: u64 = match limit {
            Some(bytes) => bytes,
            None => self.auto_download_rules[rule].max_size_bytes,
        };
        let ghost changed = RuleData { mime_pattern: mime_pattern@, max_size_bytes };
        self.auto_download_rules.set(rule, AutoDownloadRule { mime_pattern, max_size_bytes });
        assert(self@.rules =~= before.rules.update(rule as int, changed));
    }
}

/// Limits that are shown in kilobytes and entered again as they are shown do not change
/// again.
pub proof fn limits_are_stable(kilobytes: u64, megabytes: u64)
    ensures
        speed_limit((speed_limit(kilobytes) / 1024) as u64) == speed_limit(kilobytes),
        rule_limit((rule_limit(megabytes) / 1_048_576) as u64) == rule_limit(megabytes),
{
}

} // verus!
