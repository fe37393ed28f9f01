//! Audio Notifier: which sound goes with which event, and how the system
//! player is invoked.
use std::sync::Arc;
use vstd::prelude::*;
use vstd::string::*;

use crate::ap::strings_view;
use crate::config::AudioConfig;

verus! {

/// The events that have a sound.
#[derive(Debug, Clone, Copy, PartialEq, Eq, Structural)]
pub enum AudioEvent {
    /// The access point is up.
    ApStarted,
    /// A connection attempt began.
    ConnectionStarted,
    /// The device joined the network.
    ConnectionSuccess,
    /// The connection attempt failed.
    ConnectionFailed,
}

/// The sound file configured for an event.
pub open spec fn sound_file_spec(c: AudioConfig, e: AudioEvent) -> Seq<char> {
    match e {
        AudioEvent::ApStarted => c.files.ap_started@,
        AudioEvent::ConnectionStarted => c.files.connection_started@,
        AudioEvent::ConnectionSuccess => c.files.connection_success@,
        AudioEvent::ConnectionFailed => c.files.connection_failed@,
    }
}

/// Arguments for the player: `-D <device>`, unless the device is `auto`
/// (the default device).
pub open spec fn player_args_spec(c: AudioConfig) -> Seq<Seq<char>> {
    if c.device@ == "auto"@ {
        Seq::empty()
    } else {
        seq!["-D"@, c.device@]
    }
}

/// Plays sounds through `aplay`.
pub struct AplayNotifier {
    config: Arc<AudioConfig>,
}

impl AplayNotifier {
    pub fn new(config: Arc<AudioConfig>) -> (r: Self)
        ensures
            r.config_spec() == *config,
    {
        Self { config }
    }

    pub closed spec fn config_spec(&self) -> AudioConfig {
        *self.config
    }

    /// The sound file for `event`.
    pub fn sound_file(&self, event: AudioEvent) -> (r: String)
        ensures
            r@ == sound_file_spec(self.config_spec(), event),
    {
        let files = &self.config.files;
        match event {
            AudioEvent::ApStarted => String::from_str(files.ap_started.as_str()),
            AudioEvent::ConnectionStarted => String::from_str(files.connection_started.as_str()),
            AudioEvent::ConnectionSuccess => String::from_str(files.connection_success.as_str()),
            AudioEvent::ConnectionFailed => String::from_str(files.connection_failed.as_str()),
        }
    }

    /// The player's arguments; the sound itself is piped to its input.
    pub fn player_args(&self) -> (r: Vec<String>)
        ensures
            strings_view(r@) == player_args_spec(self.config_spec()),
    {
        let mut v: Vec<String> = Vec::new();
        let auto = String::from_str("auto");
        if self.config.device != auto {
            v.push(String::from_str("-D"));
            v.push(String::from_str(self.config.device.as_str()));
        }
        assert(strings_view(v@) =~= player_args_spec(self.config_spec()));
        v
    }
}

} // verus!
