//! Keeping the rain-ambience player in step with the settings.
//!
//! The player runs on a thread of its own and is driven by commands over a
//! channel. This module decides when the audio device may be opened (never
//! while sound is off), when to give up on it for good, and which commands go
//! out, in what order, to bring the player in line with the settings. Opening
//! the device and sending the commands happen outside this library.
use vstd::prelude::*;

use crate::text::{opt_string_text, str_eq};

verus! {

/// A command for the audio player.
pub enum AudioCmd {
    /// Swap the playing source: `None` = built-in synth, `Some` = a file path.
    Source(Option<String>),
    /// Send the current volume.
    Volume,
    /// Switch playback on or off.
    Enabled(bool),
}

/// A command as the contracts see it.
pub enum AudioCmdView {
    Source(Option<Seq<char>>),
    Volume,
    Enabled(bool),
}

impl View for AudioCmd {
    type V = AudioCmdView;

    open spec fn view(&self) -> AudioCmdView {
        match self {
            AudioCmd::Source(s) => AudioCmdView::Source(opt_string_text(*s)),
            AudioCmd::Volume => AudioCmdView::Volume,
            AudioCmd::Enabled(b) => AudioCmdView::Enabled(*b),
        }
    }
}

/// A list of commands as the contracts see it.
pub open spec fn cmds_view(c: Seq<AudioCmd>) -> Seq<AudioCmdView> {
    c.map_values(|x: AudioCmd| x@)
}

/// What has been sent to the audio player so far.
pub struct AudioLink {
    connected: bool,
    dead: bool,
    sent_enabled: bool,
    sent_source: Option<Option<String>>,
    volume_sent: bool,
}

impl AudioLink {
    /// The player thread is running and accepts commands.
    pub closed spec fn spec_connected(&self) -> bool {
        self.connected
    }

    /// The device could not be opened, or a command could not be delivered:
    /// nothing more is tried.
    pub closed spec fn spec_dead(&self) -> bool {
        self.dead
    }

    /// The on/off state last sent.
    pub closed spec fn spec_sent_enabled(&self) -> bool {
        self.sent_enabled
    }

    /// The source last sent (`None` when none has been sent on this
    /// connection).
    pub closed spec fn spec_sent_source(&self) -> Option<Option<Seq<char>>> {
        match self.sent_source {
            Some(s) => Some(opt_string_text(s)),
            None => None,
        }
    }

    /// A volume has been sent since the current source was.
    pub closed spec fn spec_volume_sent(&self) -> bool {
        self.volume_sent
    }

    /// Right after connecting: the next round sends every setting, because
    /// nothing counts as sent.
    pub open spec fn freshly_connected(&self, enabled: bool) -> bool {
        &&& self.spec_connected()
        &&& !self.spec_dead()
        &&& self.spec_sent_enabled() == !enabled
        &&& self.spec_sent_source() is None
        &&& !self.spec_volume_sent()
    }

    /// Whether the device should be opened now.
    pub open spec fn spec_needs_spawn(&self, enabled: bool) -> bool {
        !self.spec_dead() && !self.spec_connected() && enabled
    }

    /// The commands that bring a connected player in line with the settings:
    /// the source if it changed; the volume if the source changed, the
    /// volume changed, or none was sent yet; the on/off state if it changed.
    /// Nothing for a link that is dead or not connected.
    pub open spec fn spec_commands(
        &self,
        enabled: bool,
        source: Option<Seq<char>>,
        volume_changed: bool,
    ) -> Seq<AudioCmdView> {
        if self.spec_dead() || !self.spec_connected() {
            Seq::empty()
        } else {
            let source_changed = self.spec_sent_source() != Some(source);
            let src = if source_changed {
                seq![AudioCmdView::Source(source)]
            } else {
                Seq::empty()
            };
            let vol = if source_changed || volume_changed || !self.spec_volume_sent() {
                seq![AudioCmdView::Volume]
            } else {
                Seq::empty()
            };
            let en = if enabled != self.spec_sent_enabled() {
                seq![AudioCmdView::Enabled(enabled)]
            } else {
                Seq::empty()
            };
            src + vol + en
        }
    }

    /// Not connected, nothing sent, not given up.
    pub fn new() -> (l: AudioLink)
        ensures
            !l.spec_connected(),
            !l.spec_dead(),
            !l.spec_sent_enabled(),
            l.spec_sent_source() is None,
            !l.spec_volume_sent(),
    {
        AudioLink {
            connected: false,
            dead: false,
            sent_enabled: false,
            sent_source: None,
            volume_sent: false,
        }
    }

    /// Whether to open the audio device now: only when sound is wanted, the
    /// player is not running yet, and no earlier attempt failed.
    pub fn needs_spawn(&self, enabled: bool) -> (b: bool)
        ensures
            b == self.spec_needs_spawn(enabled),
    {
        !self.dead && !self.connected && enabled
    }

    /// Record the outcome of opening the device. On success every setting
    /// counts as unsent, so the first round sends them all; on failure the
    /// link is given up for good.
    pub fn spawned(&mut self, ok: bool, enabled: bool)
        ensures
            ok ==> final(self).freshly_connected(enabled),
            !ok ==> final(self).spec_dead() && final(self).spec_connected() == old(
                self,
            ).spec_connected(),
    {
        if ok {
            self.connected = true;
            self.dead = false;
            self.sent_enabled = !enabled;
            self.volume_sent = false;
            self.sent_source = None;
        } else {
            self.dead = true;
        }
    }

    /// The commands to send this round, in order, recording them as sent.
    /// The caller sends them one by one and calls
    /// [`send_failed`](Self::send_failed) at the first that cannot be
    /// delivered.
    pub fn commands(&mut self, enabled: bool, source: Option<String>, volume_changed: bool) -> (c: Vec<
        AudioCmd,
    >)
        ensures
            cmds_view(c@) == old(self).spec_commands(enabled, opt_string_text(source), volume_changed),
            (old(self).spec_dead() || !old(self).spec_connected()) ==> {
                &&& final(self).spec_connected() == old(self).spec_connected()
                &&& final(self).spec_dead() == old(self).spec_dead()
                &&& final(self).spec_sent_enabled() == old(self).spec_sent_enabled()
                &&& final(self).spec_sent_source() == old(self).spec_sent_source()
                &&& final(self).spec_volume_sent() == old(self).spec_volume_sent()
            },
            !(old(self).spec_dead() || !old(self).spec_connected()) ==> {
                &&& final(self).spec_connected()
                &&& !final(self).spec_dead()
                &&& final(self).spec_sent_enabled() == enabled
                &&& final(self).spec_sent_source() == Some(opt_string_text(source))
                &&& final(self).spec_volume_sent()
            },
    {
        let mut c: Vec<AudioCmd> = Vec::new();
        if self.dead || !self.connected {
            proof {
                assert(cmds_view(c@) =~= Seq::<AudioCmdView>::empty());
            }
            return c;
        }
        let ghost src = opt_string_text(source);
        let source_changed = match &self.sent_source {
            None => true,
            Some(None) => source.is_some(),
            Some(Some(sent)) => match &source {
                None => true,
                Some(s) => !str_eq(sent.as_str(), s.as_str()),
            },
        };
        assert(source_changed == (self.spec_sent_source() != Some(src)));
        let send_volume = source_changed || volume_changed || !self.volume_sent;
        let send_enabled = enabled != self.sent_enabled;
        let ghost expected = old(self).spec_commands(enabled, src, volume_changed);
        if source_changed {
            let copy = match &source {
                None => None,
                Some(s) => Some(s.clone()),
            };
            c.push(AudioCmd::Source(copy));
        }
        if send_volume {
            c.push(AudioCmd::Volume);
        }
        if send_enabled {
            c.push(AudioCmd::Enabled(enabled));
        }
        proof {
            assert(cmds_view(c@) =~= expected);
        }
        self.sent_source = Some(source);
        self.volume_sent = true;
        self.sent_enabled = enabled;
        c
    }

    /// A command could not be delivered: the player is gone, and nothing more
    /// is tried.
    pub fn send_failed(&mut self)
        ensures
            final(self).spec_dead(),
            final(self).spec_connected() == old(self).spec_connected(),
    {
        self.dead = true;
    }

    /// Whether the link has been given up.
    pub fn is_dead(&self) -> (b: bool)
        ensures
            b == self.spec_dead(),
    {
        self.dead
    }
}

impl Default for AudioLink {
    fn default() -> (l: AudioLink)
        ensures
            !l.spec_connected(),
            !l.spec_dead(),
            !l.spec_sent_enabled(),
            l.spec_sent_source() is None,
            !l.spec_volume_sent(),
    {
        AudioLink::new()
    }
}

/// No audio device is opened while sound is off.
pub proof fn no_device_until_wanted(l: AudioLink)
    ensures
        !l.spec_needs_spawn(false),
{
}

/// A link that has been given up is never retried: the device is not opened
/// again and no command is sent, whatever the settings.
pub proof fn dead_link_is_never_retried(
    l: AudioLink,
    enabled: bool,
    source: Option<Seq<char>>,
    volume_changed: bool,
)
    requires
        l.spec_dead(),
    ensures
        !l.spec_needs_spawn(enabled),
        l.spec_commands(enabled, source, volume_changed) == Seq::<AudioCmdView>::empty(),
{
}

/// On the first connection every setting goes out, in order: the source, the
/// volume (never suppressed, whatever the caller says changed) and the on/off
/// state.
pub proof fn first_connection_sends_everything(
    l: AudioLink,
    enabled: bool,
    source: Option<Seq<char>>,
    volume_changed: bool,
)
    requires
        l.freshly_connected(enabled),
    ensures
        l.spec_commands(enabled, source, volume_changed) == seq![
            AudioCmdView::Source(source),
            AudioCmdView::Volume,
            AudioCmdView::Enabled(enabled),
        ],
{
    assert(l.spec_commands(enabled, source, volume_changed) =~= seq![
        AudioCmdView::Source(source),
        AudioCmdView::Volume,
        AudioCmdView::Enabled(enabled),
    ]);
}

/// A new source starts silent, so whenever the source changes on a live link
/// the volume is sent again right after it.
pub proof fn new_source_resends_volume(
    l: AudioLink,
    enabled: bool,
    source: Option<Seq<char>>,
    volume_changed: bool,
)
    requires
        !l.spec_dead(),
        l.spec_connected(),
        l.spec_sent_source() != Some(source),
    ensures
        l.spec_commands(enabled, source, volume_changed).len() >= 2,
        l.spec_commands(enabled, source, volume_changed)[0] == AudioCmdView::Source(source),
        l.spec_commands(enabled, source, volume_changed)[1] == AudioCmdView::Volume,
{
}

/// A running player is never spawned again: once connected (for instance
/// right after a successful spawn), no further device is opened whatever the
/// settings; a spawn is only ever asked for with sound on, no player running
/// and no earlier failure.
pub proof fn running_player_is_never_respawned(l: AudioLink, enabled: bool, was_enabled: bool)
    ensures
        l.spec_connected() ==> !l.spec_needs_spawn(enabled),
        l.freshly_connected(was_enabled) ==> !l.spec_needs_spawn(enabled),
        l.spec_needs_spawn(enabled) ==> enabled && !l.spec_connected() && !l.spec_dead(),
{
}

} // verus!
