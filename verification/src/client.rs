//! What the client commands compute: the shutdown request, the directories
//! of a recording session, and the lines they report.

use vstd::prelude::*;
use vstd::string::{StrSliceExecFns, StringExecFns};

use crate::launch::{shutdown_address, subscribe_message, subscribe_model};
use crate::osc::{encode, is_routable, osc_message_bytes, ArgModel, MessageModel, OscMessage};
use crate::text::{decimal_digits, opt_view, push_decimal};

verus! {

/// The shutdown request: the address `/shutdown` and no arguments.
pub open spec fn shutdown_model() -> MessageModel {
    MessageModel { addr: shutdown_address(), args: Seq::empty() }
}

/// The message that asks a running suite to shut down.
pub fn shutdown_message() -> (msg: OscMessage)
    ensures
        msg@ == shutdown_model(),
        is_routable(msg@),
{
    let msg = OscMessage { addr: String::from_str("/shutdown"), args: Vec::new() };
    proof {
        reveal_strlit("/shutdown");
        assert(msg@.args =~= Seq::<ArgModel>::empty());
        assert(!msg@.addr.contains('\0')) by {
            assert forall|i: int| 0 <= i < msg@.addr.len() implies msg@.addr[i] != '\0' by {}
        }
    }
    msg
}

/// The datagram that `terminate` sends to the control address.
pub fn shutdown_packet() -> (packet: Vec<u8>)
    ensures
        packet@ == osc_message_bytes(shutdown_model()),
        is_routable(shutdown_model()),
{
    encode(&shutdown_message())
}

/// The host on which a recording session listens for completion.
pub open spec fn nrt_listener_host() -> Seq<char> {
    "127.0.0.1"@
}

/// The message that subscribes the completion listener on `port` to
/// `/nrt_record_finished`.
pub fn nrt_finished_subscription(port: u16) -> (msg: OscMessage)
    ensures
        msg@ == subscribe_model("/nrt_record_finished"@, nrt_listener_host(), port as i32),
{
    subscribe_message("/nrt_record_finished", "127.0.0.1", port as i32)
}

/// `out` is `dir` with its first `~` replaced by `home`, or `dir` itself
/// where it has no `~`.
pub open spec fn expands_home(dir: Seq<char>, home: Seq<char>, out: Seq<char>) -> bool {
    ||| (!dir.contains('~') && out == dir)
    ||| exists|i: int|
        0 <= i < dir.len() && dir[i] == '~' && (forall|j: int| 0 <= j < i ==> dir[j] != '~')
            && out == dir.take(i) + home + dir.skip(i + 1)
}

/// Replaces the first `~` of `dir` with `home`.
pub fn expand_home(dir: &str, home: &str) -> (out: String)
    ensures
        expands_home(dir@, home@, out@),
{
    let len = dir.unicode_len();
    let mut i: usize = 0;
    while i < len
        invariant
            len == dir@.len(),
            i <= len,
            forall|j: int| 0 <= j < i ==> dir@[j] != '~',
        decreases len - i,
    {
        if dir.get_char(i) == '~' {
            let mut out = String::from_str(dir.substring_char(0, i));
            out.append(home);
            out.append(dir.substring_char(i + 1, len));
            assert(dir@.subrange(0, i as int) == dir@.take(i as int));
            assert(dir@.subrange(i + 1, len as int) == dir@.skip(i + 1));
            return out;
        }
        i = i + 1;
    }
    assert(!dir@.contains('~'));
    String::from_str(dir)
}

/// The sample pack directory of a session, `~/sample_packs` where the
/// configuration names none.
pub fn sample_pack_dir(configured: Option<String>) -> (dir: String)
    ensures
        dir@ == match opt_view(configured) {
            Some(d) => d,
            None => "~/sample_packs"@,
        },
{
    match configured {
        Some(d) => d,
        None => String::from_str("~/sample_packs"),
    }
}

/// The directory that recordings are written to: the configured one, else
/// `~/jdw_output`, with its first `~` replaced by the home directory (`.`
/// where there is none).
pub fn nrt_output_dir(configured: Option<String>, home: Option<String>) -> (dir: String)
    ensures
        expands_home(
            match opt_view(configured) {
                Some(d) => d,
                None => "~/jdw_output"@,
            },
            match opt_view(home) {
                Some(h) => h,
                None => "."@,
            },
            dir@,
        ),
{
    let configured = match configured {
        Some(d) => d,
        None => String::from_str("~/jdw_output"),
    };
    let home = match home {
        Some(h) => h,
        None => String::from_str("."),
    };
    expand_home(configured.as_str(), home.as_str())
}

/// The sum of the numbers of a sequence.
pub open spec fn sum(counts: Seq<usize>) -> int
    decreases counts.len(),
{
    if counts.len() == 0 {
        0
    } else {
        sum(counts.drop_last()) + counts.last()
    }
}

/// Adding a section adds its tracks: the count of a list with one more
/// entry is the count of the list plus that entry.
pub proof fn lemma_sum_push(counts: Seq<usize>, x: usize)
    ensures
        sum(counts.push(x)) == sum(counts) + x,
{
    assert(counts.push(x).drop_last() =~= counts);
}

/// No sections hold no tracks; one section holds its own; two sections
/// hold the tracks of both.
pub proof fn lemma_sum_small(a: usize, b: usize)
    ensures
        sum(Seq::<usize>::empty()) == 0,
        sum(seq![a]) == a,
        sum(seq![a, b]) == a + b,
{
    lemma_sum_push(Seq::<usize>::empty(), a);
    assert(Seq::<usize>::empty().push(a) =~= seq![a]);
    lemma_sum_push(seq![a], b);
    assert(seq![a].push(b) =~= seq![a, b]);
}

/// The count of two lists put together is the sum of their counts,
/// whatever the entries.
pub proof fn lemma_sum_concat(s: Seq<usize>, t: Seq<usize>)
    ensures
        sum(s + t) == sum(s) + sum(t),
    decreases t.len(),
{
    if t.len() == 0 {
        assert(s + t =~= s);
    } else {
        lemma_sum_concat(s, t.drop_last());
        assert((s + t).drop_last() =~= s + t.drop_last());
        assert((s + t).last() == t.last());
    }
}

proof fn lemma_sum_prefix_bounded(counts: Seq<usize>, k: int)
    requires
        0 <= k <= counts.len(),
    ensures
        0 <= sum(counts.take(k)) <= sum(counts),
    decreases counts.len() - k,
{
    if k < counts.len() {
        lemma_sum_prefix_bounded(counts, k + 1);
        assert(counts.take(k + 1).drop_last() == counts.take(k));
    } else {
        assert(counts.take(k) == counts);
    }
    lemma_sum_nonnegative(counts.take(k));
}

proof fn lemma_sum_nonnegative(counts: Seq<usize>)
    ensures
        sum(counts) >= 0,
    decreases counts.len(),
{
    if counts.len() > 0 {
        lemma_sum_nonnegative(counts.drop_last());
    }
}

/// The number of tracks in a composition, given the number of tracks of
/// each of its sections.
pub fn track_count(section_tracks: &Vec<usize>) -> (total: usize)
    requires
        sum(section_tracks@) <= usize::MAX,
    ensures
        total == sum(section_tracks@),
{
    let mut total: usize = 0;
    let n = section_tracks.len();
    for k in 0..n
        invariant
            n == section_tracks@.len(),
            sum(section_tracks@) <= usize::MAX,
            total == sum(section_tracks@.take(k as int)),
    {
        proof {
            lemma_sum_prefix_bounded(section_tracks@, k + 1);
            assert(section_tracks@.take(k + 1).drop_last() == section_tracks@.take(k as int));
        }
        total = total + section_tracks[k];
    }
    assert(section_tracks@.take(n as int) == section_tracks@);
    total
}

/// The line that `play` prints after queueing a composition.
pub fn play_report(tracks: usize) -> (line: String)
    ensures
        line@ == "Sent "@ + decimal_digits(tracks as nat) + " track(s) to the sequencer."@,
{
    let mut line = String::from_str("Sent ");
    push_decimal(&mut line, tracks as u64);
    line.append(" track(s) to the sequencer.");
    line
}

/// The line that `setup` prints after configuring a composition.
pub fn setup_report(samples: usize, synthdefs: usize, sections: usize) -> (line: String)
    ensures
        line@ == "Setup sent: "@ + decimal_digits(samples as nat) + " sample(s), "@
            + decimal_digits(synthdefs as nat) + " SynthDef(s), "@ + decimal_digits(
            sections as nat,
        ) + " synth section(s) in billboard."@,
{
    let mut line = String::from_str("Setup sent: ");
    push_decimal(&mut line, samples as u64);
    line.append(" sample(s), ");
    push_decimal(&mut line, synthdefs as u64);
    line.append(" SynthDef(s), ");
    push_decimal(&mut line, sections as u64);
    line.append(" synth section(s) in billboard.");
    line
}

/// The line that `update` prints after re-configuring a composition.
pub fn update_report(file: &str) -> (line: String)
    ensures
        line@ == "Update sent. Commands configured for "@ + file@ + "."@,
{
    let mut line = String::from_str("Update sent. Commands configured for ");
    line.append(file);
    line.append(".");
    line
}

/// The lines that `terminate` prints once the request is sent.
pub fn shutdown_report(addr: &str) -> (text: String)
    ensures
        text@ == "Shutdown signal sent to suite on "@ + addr@
            + ".\n(If the suite was not running, this is a no-op.)"@,
{
    let mut text = String::from_str("Shutdown signal sent to suite on ");
    text.append(addr);
    text.append(".\n(If the suite was not running, this is a no-op.)");
    text
}

/// The closing line of a recording session of `tracks` tracks.
pub open spec fn nrt_report_text(tracks: usize) -> Seq<char> {
    "NRT recording finished. "@ + decimal_digits(tracks as nat) + " track(s) processed."@
}

/// The line that a recording session prints when it is done.
pub fn nrt_report(tracks: usize) -> (line: String)
    ensures
        line@ == nrt_report_text(tracks),
{
    let mut line = String::from_str("NRT recording finished. ");
    push_decimal(&mut line, tracks as u64);
    line.append(" track(s) processed.");
    line
}

/// Where a non-real-time recording session stands: the track being
/// recorded (counting from 0), how many tracks there are, the port that the
/// next completion listener binds, and whether that port is already the
/// fallback for a port that could not be bound.
#[derive(Debug, Clone, Copy, PartialEq, Eq, Structural)]
pub struct NrtSession {
    pub track: usize,
    pub tracks: usize,
    pub port: u16,
    pub retried: bool,
}

/// What happened to the last action of a recording session.
#[derive(Debug, Clone, Copy, PartialEq, Eq, Structural)]
pub enum NrtEvent {
    /// The completion listener was bound on the port asked for.
    ListenerStarted,
    /// The completion listener could not be bound on the port asked for.
    ListenerFailed,
    /// The recording bundle of the track could not be encoded, or the
    /// router's address did not parse.
    RecordingUnsendable,
    /// The recording bundle was sent (or its send failed) and the wait for
    /// completion ended, with an answer or by timing out.
    TrackDone,
}

/// What a recording session does next.
#[derive(Debug, Clone)]
pub enum NrtAction {
    /// Announce the track (where the port is not a fallback) and start the
    /// completion listener on this port.
    StartListener(u16),
    /// Record the current track: send this subscription datagram to the
    /// router, then the preload messages, then the preload bundles (a failed
    /// send is reported and passed over), then the recording bundle, and
    /// wait for completion.
    RecordTrack(Vec<u8>),
    /// Report that no listener could be started and exit with status 1.
    Exit,
    /// Report the unsendable recording bundle and stop, without the closing
    /// line.
    Stop,
    /// Every track is done: print this closing line.
    Finish(String),
}

/// The first port that a recording session binds a completion listener on.
pub open spec fn nrt_first_port() -> u16 {
    13456
}

/// A session that is still recording one of its tracks.
pub open spec fn in_progress(s: NrtSession) -> bool {
    s.track < s.tracks
}

/// Begins a recording session of `tracks` tracks: the first listener is
/// started on the first port, or, with no tracks, the closing line is
/// printed at once.
pub fn nrt_start(tracks: usize) -> (r: (NrtSession, NrtAction))
    ensures
        r.0 == (NrtSession { track: 0, tracks, port: nrt_first_port(), retried: false }),
        tracks == 0 ==> (r.1 matches NrtAction::Finish(line) && line@ == nrt_report_text(0)),
        tracks > 0 ==> (r.1 matches NrtAction::StartListener(p) && p == nrt_first_port()),
        r.1 matches NrtAction::StartListener(p) ==> r.0.port == p && in_progress(r.0),
{
    let session = NrtSession { track: 0, tracks, port: 13456, retried: false };
    if tracks == 0 {
        (session, NrtAction::Finish(nrt_report(0)))
    } else {
        (session, NrtAction::StartListener(13456))
    }
}

/// One step of a recording session. A listener that started is subscribed
/// to `/nrt_record_finished` on the port it was bound on, and the next track
/// begins at the port after it. A port that cannot be bound is retried once
/// on the next port; a second failure ends the program. An unsendable
/// recording bundle ends the session without the closing line. Each track
/// counts as done once its wait has ended.
pub fn nrt_step(s: NrtSession, e: NrtEvent) -> (r: (NrtSession, NrtAction))
    requires
        in_progress(s),
        (e is ListenerStarted || (e is ListenerFailed && !s.retried)) ==> s.port < u16::MAX,
    ensures
        e is ListenerStarted ==> {
            &&& r.1 matches NrtAction::RecordTrack(packet) && packet@ == osc_message_bytes(
                subscribe_model("/nrt_record_finished"@, nrt_listener_host(), s.port as i32),
            )
            &&& r.0 == (NrtSession { track: s.track, tracks: s.tracks, port: (s.port + 1) as u16, retried: false })
        },
        (e is ListenerFailed && !s.retried) ==> {
            &&& r.1 matches NrtAction::StartListener(p) && p == s.port + 1
            &&& r.0 == (NrtSession { track: s.track, tracks: s.tracks, port: (s.port + 1) as u16, retried: true })
        },
        (e is ListenerFailed && s.retried) ==> (r.1 is Exit && r.0 == s),
        e is RecordingUnsendable ==> (r.1 is Stop && r.0 == s),
        e is TrackDone ==> {
            &&& r.0 == (NrtSession { track: (s.track + 1) as usize, tracks: s.tracks, port: s.port, retried: false })
            &&& s.track + 1 == s.tracks ==> (r.1 matches NrtAction::Finish(line) && line@
                == nrt_report_text(s.tracks))
            &&& s.track + 1 < s.tracks ==> (r.1 matches NrtAction::StartListener(p) && p == s.port)
        },
        r.1 matches NrtAction::StartListener(p) ==> r.0.port == p && in_progress(r.0),
        r.1 is RecordTrack ==> in_progress(r.0),
{
    match e {
        NrtEvent::ListenerStarted => {
            let packet = encode(&nrt_finished_subscription(s.port));
            let next = NrtSession { track: s.track, tracks: s.tracks, port: s.port + 1, retried: false };
            (next, NrtAction::RecordTrack(packet))
        },
        NrtEvent::ListenerFailed => {
            if s.retried {
                (s, NrtAction::Exit)
            } else {
                let next = NrtSession { track: s.track, tracks: s.tracks, port: s.port + 1, retried: true };
                (next, NrtAction::StartListener(s.port + 1))
            }
        },
        NrtEvent::RecordingUnsendable => (s, NrtAction::Stop),
        NrtEvent::TrackDone => {
            let next = NrtSession { track: s.track + 1, tracks: s.tracks, port: s.port, retried: false };
            if s.track + 1 == s.tracks {
                (next, NrtAction::Finish(nrt_report(s.tracks)))
            } else {
                (next, NrtAction::StartListener(s.port))
            }
        },
    }
}

} // verus!
