//! The compositor's line protocol: record parsing, correlation of window and
//! address records, and the reconnect schedule of the event-stream reader.

use vstd::prelude::*;

use crate::backend::{copy_opt, opt_event_view, opt_view, FocusError, FocusEvent, FocusEventModel};
use crate::text::{
    chars_of, find_char, find_pair, first_index_of, first_pair_of, is_white_space, pair_at,
    spells, trim_end_spec, trimmed_len,
};

verus! {

broadcast use vstd::string::group_string_axioms;

/// A record of the event stream.
#[derive(Debug, Clone)]
pub enum HyprlandEvent {
    /// `activewindow>>CLASS,TITLE`
    ActiveWindow { class: String, title: String },
    /// `activewindowv2>>ADDRESS`
    ActiveWindowV2 { address: String },
    /// Any other record, or a line that is no record.
    Other,
}

/// The contents of a record.
pub enum EventModel {
    ActiveWindow { class: Seq<char>, title: Seq<char> },
    ActiveWindowV2 { address: Seq<char> },
    Other,
}

impl View for HyprlandEvent {
    type V = EventModel;

    open spec fn view(&self) -> EventModel {
        match self {
            HyprlandEvent::ActiveWindow { class, title } => EventModel::ActiveWindow {
                class: class@,
                title: title@,
            },
            HyprlandEvent::ActiveWindowV2 { address } => EventModel::ActiveWindowV2 {
                address: address@,
            },
            HyprlandEvent::Other => EventModel::Other,
        }
    }
}

/// The payload of a window record split at its first comma; without a comma
/// the whole payload is the class and the title is empty.
pub open spec fn split_window_payload(data: Seq<char>) -> (Seq<char>, Seq<char>) {
    match first_index_of(data, ',') {
        Some(k) => (data.take(k), data.skip(k + 1)),
        None => (data, Seq::empty()),
    }
}

/// The record that a line of the stream holds: trailing white space is
/// dropped, the line splits at its first `>>` into name and payload, and
/// only the two window record names are recognised.
pub open spec fn event_of_line(line: Seq<char>) -> EventModel {
    let l = trim_end_spec(line);
    match first_pair_of(l, '>', '>') {
        None => EventModel::Other,
        Some(k) => {
            let name = l.take(k);
            let data = l.skip(k + 2);
            if name == "activewindow"@ {
                EventModel::ActiveWindow {
                    class: split_window_payload(data).0,
                    title: split_window_payload(data).1,
                }
            } else if name == "activewindowv2"@ {
                EventModel::ActiveWindowV2 { address: data }
            } else {
                EventModel::Other
            }
        },
    }
}

/// Splits `chars[from..to]`, the payload of a window record, into class and title.
fn split_window(line: &str, chars: &Vec<char>, from: usize, to: usize) -> (r: (String, String))
    requires
        chars@ == line@,
        from <= to <= chars.len(),
    ensures
        (r.0@, r.1@) == split_window_payload(chars@.subrange(from as int, to as int)),
{
    let ghost data = chars@.subrange(from as int, to as int);
    match find_char(chars, ',', from, to) {
        Some(c) => {
            let class = line.substring_char(from, c).to_owned();
            let title = line.substring_char(c + 1, to).to_owned();
            assert(class@ =~= data.take(c - from));
            assert(title@ =~= data.skip(c - from + 1));
            (class, title)
        },
        None => {
            let class = line.substring_char(from, to).to_owned();
            assert(class@ =~= data);
            (class, String::new())
        },
    }
}

/// Parses one line of the event stream.
pub fn parse_event_line(line: &str) -> (r: HyprlandEvent)
    ensures
        r@ == event_of_line(line@),
{
    let chars = chars_of(line);
    let end = trimmed_len(&chars);
    let ghost l = chars@.subrange(0, end as int);
    assert(l =~= chars@.take(end as int));
    let k = match find_pair(&chars, '>', '>', 0, end) {
        Some(k) => k,
        None => {
            return HyprlandEvent::Other;
        },
    };
    let ghost name = l.take(k as int);
    let ghost data = l.skip(k + 2);
    assert(name =~= chars@.subrange(0, k as int));
    assert(data =~= chars@.subrange(k + 2, end as int));
    if spells(&chars, 0, k, "activewindow") {
        let (class, title) = split_window(line, &chars, k + 2, end);
        HyprlandEvent::ActiveWindow { class, title }
    } else if spells(&chars, 0, k, "activewindowv2") {
        let address = line.substring_char(k + 2, end).to_owned();
        assert(address@ =~= data);
        HyprlandEvent::ActiveWindowV2 { address }
    } else {
        HyprlandEvent::Other
    }
}

/// What the correlator remembers of the stream: the last window record's class
/// and title, and the last non-empty window address.
pub struct CorrelationModel {
    pub class: Option<Seq<char>>,
    pub title: Option<Seq<char>>,
    pub address: Option<Seq<char>>,
}

/// The correlator's memory at the start of a connection.
pub open spec fn fresh_correlation() -> CorrelationModel {
    CorrelationModel { class: None, title: None, address: None }
}

/// One step of the correlator: its next memory, and the focus event it emits.
/// A window record emits at once with whatever address is remembered, unless
/// its class is empty; an address record only updates the memory.
pub open spec fn correlate(s: CorrelationModel, e: EventModel) -> (CorrelationModel, Option<
    FocusEventModel,
>) {
    match e {
        EventModel::ActiveWindow { class, title } => (
            CorrelationModel { class: Some(class), title: Some(title), address: s.address },
            if class.len() == 0 {
                None
            } else {
                Some(
                    FocusEventModel {
                        app_class: class,
                        title: if title.len() == 0 {
                            None
                        } else {
                            Some(title)
                        },
                        window_id: s.address,
                    },
                )
            },
        ),
        EventModel::ActiveWindowV2 { address } => (
            CorrelationModel {
                class: s.class,
                title: s.title,
                address: if address.len() == 0 {
                    None
                } else {
                    Some(address)
                },
            },
            None,
        ),
        EventModel::Other => (s, None),
    }
}

/// Merges window records and address records into focus events. Its memory
/// lasts for one connection.
#[derive(Debug)]
pub struct FocusState {
    current_class: Option<String>,
    current_title: Option<String>,
    current_address: Option<String>,
}

impl View for FocusState {
    type V = CorrelationModel;

    closed spec fn view(&self) -> CorrelationModel {
        CorrelationModel {
            class: opt_view(self.current_class),
            title: opt_view(self.current_title),
            address: opt_view(self.current_address),
        }
    }
}

impl FocusState {
    /// A correlator that remembers nothing.
    pub fn new() -> (r: FocusState)
        ensures
            r@ == fresh_correlation(),
    {
        FocusState { current_class: None, current_title: None, current_address: None }
    }

    /// Takes one record; returns the focus event it causes, if any.
    pub fn update(&mut self, event: HyprlandEvent) -> (r: Option<FocusEvent>)
        ensures
            (final(self)@, opt_event_view(r)) == correlate(old(self)@, event@),
    {
        match event {
            HyprlandEvent::ActiveWindow { class, title } => {
                self.current_class = Some(class.clone());
                self.current_title = Some(title.clone());
                if class.as_str().is_empty() {
                    None
                } else {
                    let title = if title.as_str().is_empty() {
                        None
                    } else {
                        Some(title)
                    };
                    Some(FocusEvent::new(class, title, copy_opt(&self.current_address)))
                }
            },
            HyprlandEvent::ActiveWindowV2 { address } => {
                self.current_address = if address.as_str().is_empty() {
                    None
                } else {
                    Some(address)
                };
                None
            },
            HyprlandEvent::Other => None,
        }
    }
}

impl Default for FocusState {
    fn default() -> (r: FocusState)
        ensures
            r@ == fresh_correlation(),
    {
        FocusState::new()
    }
}

/// First delay before reconnecting, in milliseconds.
pub const INITIAL_BACKOFF_MS: u64 = 250;

/// Largest delay before reconnecting, in milliseconds.
pub const MAX_BACKOFF_MS: u64 = 5000;

/// The delay that follows `d` after one more failure: doubled, capped.
pub open spec fn next_backoff(d: u64) -> u64 {
    if 2 * d <= MAX_BACKOFF_MS {
        (2 * d) as u64
    } else {
        MAX_BACKOFF_MS
    }
}

/// The delay before the attempt that follows `n` consecutive failures.
pub open spec fn backoff_after(n: nat) -> u64
    decreases n,
{
    if n == 0 {
        INITIAL_BACKOFF_MS
    } else {
        next_backoff(backoff_after((n - 1) as nat))
    }
}

/// Capped exponential backoff between reconnection attempts.
#[derive(Debug, Clone, Copy)]
pub struct Backoff {
    delay_ms: u64,
}

impl View for Backoff {
    type V = u64;

    closed spec fn view(&self) -> u64 {
        self.delay_ms
    }
}

impl Backoff {
    /// Invariant: the delay stays between the initial delay and the cap.
    pub closed spec fn wf(&self) -> bool {
        INITIAL_BACKOFF_MS <= self.delay_ms <= MAX_BACKOFF_MS
    }

    /// A backoff at its initial delay.
    pub fn new() -> (r: Backoff)
        ensures
            r@ == INITIAL_BACKOFF_MS,
            r.wf(),
    {
        Backoff { delay_ms: INITIAL_BACKOFF_MS }
    }

    /// The delay before the next attempt.
    pub fn delay_ms(&self) -> (r: u64)
        ensures
            r == self@,
    {
        self.delay_ms
    }

    /// Records a failed attempt: returns the delay to wait now and doubles the
    /// next one, up to the cap.
    pub fn fail(&mut self) -> (r: u64)
        requires
            old(self).wf(),
        ensures
            r == old(self)@,
            final(self)@ == next_backoff(old(self)@),
            final(self).wf(),
    {
        let d = self.delay_ms;
        self.delay_ms = if d <= MAX_BACKOFF_MS / 2 {
            2 * d
        } else {
            MAX_BACKOFF_MS
        };
        d
    }

    /// Records a successful connection: the next delay is the initial one again.
    pub fn reset(&mut self)
        ensures
            final(self)@ == INITIAL_BACKOFF_MS,
            final(self).wf(),
    {
        self.delay_ms = INITIAL_BACKOFF_MS;
    }
}

/// The decisions of the reconnecting event-stream reader: a correlator that
/// is new for each connection, and the backoff between connection attempts.
#[derive(Debug)]
pub struct ReaderState {
    state: FocusState,
    backoff: Backoff,
}

impl ReaderState {
    /// Invariant of the reader.
    pub closed spec fn wf(&self) -> bool {
        self.backoff.wf()
    }

    /// What the correlator of the current connection remembers.
    pub closed spec fn correlation(&self) -> CorrelationModel {
        self.state@
    }

    /// The delay before the next connection attempt.
    pub closed spec fn delay(&self) -> u64 {
        self.backoff@
    }

    /// A reader before its first connection.
    pub fn new() -> (r: ReaderState)
        ensures
            r.wf(),
            r.correlation() == fresh_correlation(),
            r.delay() == INITIAL_BACKOFF_MS,
    {
        ReaderState { state: FocusState::new(), backoff: Backoff::new() }
    }

    /// A connection was established: correlation starts afresh and the
    /// backoff returns to its initial delay.
    pub fn connected(&mut self)
        requires
            old(self).wf(),
        ensures
            final(self).wf(),
            final(self).correlation() == fresh_correlation(),
            final(self).delay() == INITIAL_BACKOFF_MS,
    {
        self.state = FocusState::new();
        self.backoff.reset();
    }

    /// A line arrived on the current connection; returns the focus event to
    /// deliver, if any. Lines that hold no record are ignored.
    pub fn line(&mut self, line: &str) -> (r: Option<FocusEvent>)
        requires
            old(self).wf(),
        ensures
            final(self).wf(),
            final(self).delay() == old(self).delay(),
            (final(self).correlation(), opt_event_view(r)) == correlate(
                old(self).correlation(),
                event_of_line(line@),
            ),
    {
        let event = parse_event_line(line);
        self.state.update(event)
    }

    /// A connection attempt failed, or the connection was lost (read error or
    /// end of stream): returns how long to wait before the next attempt.
    pub fn failed(&mut self) -> (r: u64)
        requires
            old(self).wf(),
        ensures
            final(self).wf(),
            r == old(self).delay(),
            final(self).delay() == next_backoff(old(self).delay()),
            final(self).correlation() == old(self).correlation(),
    {
        self.backoff.fail()
    }
}

/// Where the event socket lives: the runtime directory and the compositor
/// instance signature, both required. Names the first one missing.
pub fn socket_location(runtime_dir: Option<String>, signature: Option<String>) -> (r: Result<
    (String, String),
    FocusError,
>)
    ensures
        runtime_dir is None ==> (r matches Err(FocusError::EnvVarNotSet(v)) && v@
            == "XDG_RUNTIME_DIR"@),
        runtime_dir is Some && signature is None ==> (r matches Err(FocusError::EnvVarNotSet(v))
            && v@ == "HYPRLAND_INSTANCE_SIGNATURE"@),
        runtime_dir is Some && signature is Some ==> (r matches Ok((d, s)) && d@
            == runtime_dir->0@ && s@ == signature->0@),
{
    match (runtime_dir, signature) {
        (None, _) => Err(FocusError::EnvVarNotSet("XDG_RUNTIME_DIR".to_owned())),
        (Some(_), None) => Err(FocusError::EnvVarNotSet("HYPRLAND_INSTANCE_SIGNATURE".to_owned())),
        (Some(d), Some(s)) => Ok((d, s)),
    }
}

/// One diagnostic line about an environment variable: its value, or that it
/// is not set.
pub open spec fn env_line(name: Seq<char>, value: Option<Seq<char>>) -> Seq<char> {
    match value {
        Some(v) => name + "="@ + v,
        None => name + ": NOT SET"@,
    }
}

/// The diagnostic line about the socket path: where it is, or that it was
/// not found.
pub open spec fn socket_line(path: Option<Seq<char>>) -> Seq<char> {
    match path {
        Some(p) => "Socket2 path: "@ + p + " (exists)"@,
        None => "Socket2 path: NOT FOUND"@,
    }
}

fn describe_env(name: &str, value: Option<&str>) -> (r: String)
    ensures
        r@ == env_line(name@, match value {
            Some(v) => Some(v@),
            None => None,
        }),
{
    let mut line = name.to_owned();
    match value {
        Some(v) => {
            line.append("=");
            line.append(v);
        },
        None => {
            line.append(": NOT SET");
        },
    }
    line
}

/// Diagnostic lines about the event-socket environment: the runtime
/// directory, the instance signature, and the socket path if it exists.
pub fn get_diagnostics(runtime_dir: Option<&str>, signature: Option<&str>, socket: Option<&str>) -> (r:
    Vec<String>)
    ensures
        r@.len() == 3,
        r@[0]@ == env_line("XDG_RUNTIME_DIR"@, match runtime_dir {
            Some(v) => Some(v@),
            None => None,
        }),
        r@[1]@ == env_line("HYPRLAND_INSTANCE_SIGNATURE"@, match signature {
            Some(v) => Some(v@),
            None => None,
        }),
        r@[2]@ == socket_line(match socket {
            Some(p) => Some(p@),
            None => None,
        }),
{
    let mut lines: Vec<String> = Vec::new();
    lines.push(describe_env("XDG_RUNTIME_DIR", runtime_dir));
    lines.push(describe_env("HYPRLAND_INSTANCE_SIGNATURE", signature));
    let socket_line = match socket {
        Some(p) => {
            let mut line = "Socket2 path: ".to_owned();
            line.append(p);
            line.append(" (exists)");
            line
        },
        None => "Socket2 path: NOT FOUND".to_owned(),
    };
    lines.push(socket_line);
    lines
}

proof fn lemma_window_head(data: Seq<char>)
    ensures
        first_pair_of("activewindow>>"@ + data, '>', '>') == Some(12int),
        ("activewindow>>"@ + data).take(12) == "activewindow"@,
        ("activewindow>>"@ + data).skip(14) == data,
{
    reveal_strlit("activewindow>>");
    reveal_strlit("activewindow");
    let head = "activewindow>>"@;
    let l = head + data;
    assert(head.len() == 14);
    assert(first_pair_of(l, '>', '>') == Some(12int)) by {
        reveal(first_pair_of);
        assert(pair_at(l, '>', '>', 12));
        let m = choose|m: int|
            pair_at(l, '>', '>', m) && forall|j: int| 0 <= j < m ==> !pair_at(l, '>', '>', j);
        if m < 12 {
            assert(l[m] == head[m]);
        }
        if m > 12 {
            assert(!pair_at(l, '>', '>', 12));
        }
    }
    assert(l.take(12) =~= "activewindow"@);
    assert(l.skip(14) =~= data);
}

proof fn lemma_first_comma(class: Seq<char>, title: Seq<char>)
    requires
        forall|i: int| 0 <= i < class.len() ==> class[i] != ',',
    ensures
        split_window_payload(class.push(',') + title) == (class, title),
{
    let data = class.push(',') + title;
    assert(first_index_of(data, ',') == Some(class.len() as int)) by {
        reveal(first_index_of);
        assert(data[class.len() as int] == ',');
        let m = choose|m: int|
            0 <= m < data.len() && data[m] == ',' && forall|j: int| 0 <= j < m ==> data[j] != ',';
        if m < class.len() {
            assert(data[m] == class[m]);
        }
        if m > class.len() {
            assert(data[class.len() as int] != ',');
        }
    }
    assert(data.take(class.len() as int) =~= class);
    assert(data.skip(class.len() as int + 1) =~= title);
}

/// A window record splits its payload at the first comma only: for a class
/// without commas and any title (which may hold commas) that does not end in
/// white space, `activewindow>>CLASS,TITLE` is the window record of exactly
/// that class and title.
pub proof fn lemma_window_record_split(class: Seq<char>, title: Seq<char>)
    requires
        forall|i: int| 0 <= i < class.len() ==> class[i] != ',',
        title.len() > 0 ==> !is_white_space(title.last()),
    ensures
        event_of_line("activewindow>>"@ + class.push(',') + title) == (EventModel::ActiveWindow {
            class,
            title,
        }),
{
    let data = class.push(',') + title;
    let l = "activewindow>>"@ + data;
    assert("activewindow>>"@ + class.push(',') + title =~= l);
    assert(l.len() > 0 && !is_white_space(l.last())) by {
        if title.len() > 0 {
            assert(l.last() == title.last());
        } else {
            assert(l.last() == data.last());
        }
    }
    assert(trim_end_spec(l) == l);
    lemma_window_head(data);
    lemma_first_comma(class, title);
}

/// Address correlation: after an address record with a non-empty address,
/// the next window record with a non-empty class emits an event whose window
/// identifier is that address; a fresh correlator has no address, and only
/// an address record changes the remembered address.
pub proof fn lemma_address_correlation(
    s: CorrelationModel,
    address: Seq<char>,
    class: Seq<char>,
    title: Seq<char>,
)
    requires
        address.len() > 0,
        class.len() > 0,
    ensures
        ({
            let after = correlate(s, EventModel::ActiveWindowV2 { address }).0;
            let emitted = correlate(after, EventModel::ActiveWindow { class, title }).1;
            emitted matches Some(e) && e.window_id == Some(address)
        }),
        fresh_correlation().address is None,
        correlate(s, EventModel::ActiveWindow { class, title }).0.address == s.address,
        correlate(s, EventModel::Other).0.address == s.address,
{
}

/// The reconnect delays after repeated failures are 250, 500, 1000, 2000 and
/// 4000 ms, then 5000 ms from then on; no delay exceeds 5000 ms.
pub proof fn lemma_backoff_sequence(n: nat)
    ensures
        backoff_after(0) == 250,
        backoff_after(1) == 500,
        backoff_after(2) == 1000,
        backoff_after(3) == 2000,
        backoff_after(4) == 4000,
        n >= 5 ==> backoff_after(n) == 5000,
        backoff_after(n) <= MAX_BACKOFF_MS,
    decreases n,
{
    reveal_with_fuel(backoff_after, 6);
    if n > 5 {
        lemma_backoff_sequence((n - 1) as nat);
    }
}

} // verus!
