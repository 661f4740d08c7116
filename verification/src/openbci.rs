//! The amplifier session as far as it is decided rather than performed: the
//! parameters of a session, which samples of a board reading are the latest,
//! and in which order a session is wound down.

use vstd::prelude::*;

verus! {

/// The board identifier of the Cyton with Daisy.
pub const BOARD_ID_CYTON_DAISY: i32 = 2;

/// The default preset of a board.
pub const PRESET_DEFAULT: i32 = 0;

/// The number of packets that the streaming ring buffer holds.
pub const STREAM_RINGBUF_PACKETS: i32 = 450_000;

/// The value of `master_board` that names no board.
pub const NO_BOARD: i32 = -100;

/// How many samples one reading asks the board for.
pub const SAMPLES_PER_READ: usize = 5;

/// The parameters that a session is prepared with.
#[derive(Clone, Debug)]
pub struct BrainFlowInputParams {
    pub serial_port: String,
    pub mac_address: String,
    pub ip_address: String,
    pub ip_address_aux: String,
    pub ip_address_anc: String,
    pub ip_port: i32,
    pub ip_port_aux: i32,
    pub ip_port_anc: i32,
    pub ip_protocol: i32,
    pub other_info: String,
    pub timeout: i32,
    pub serial_number: String,
    pub file: String,
    pub file_aux: String,
    pub file_anc: String,
    pub master_board: i32,
}

impl BrainFlowInputParams {
    /// The parameters of a board on the serial port `port`: the port, and
    /// every other parameter empty or zero, with no master board.
    pub fn for_serial(port: &str) -> (params: Self)
        ensures
            params.serial_port@ == port@,
            params.mac_address@.len() == 0,
            params.ip_address@.len() == 0,
            params.ip_address_aux@.len() == 0,
            params.ip_address_anc@.len() == 0,
            params.ip_port == 0,
            params.ip_port_aux == 0,
            params.ip_port_anc == 0,
            params.ip_protocol == 0,
            params.other_info@.len() == 0,
            params.timeout == 0,
            params.serial_number@.len() == 0,
            params.file@.len() == 0,
            params.file_aux@.len() == 0,
            params.file_anc@.len() == 0,
            params.master_board == NO_BOARD,
    {
        Self {
            serial_port: port.to_owned(),
            mac_address: String::new(),
            ip_address: String::new(),
            ip_address_aux: String::new(),
            ip_address_anc: String::new(),
            ip_port: 0,
            ip_port_aux: 0,
            ip_port_anc: 0,
            ip_protocol: 0,
            other_info: String::new(),
            timeout: 0,
            serial_number: String::new(),
            file: String::new(),
            file_aux: String::new(),
            file_anc: String::new(),
            master_board: NO_BOARD,
        }
    }
}

/// How many samples a board reading holds: the size that the board
/// reported, none where it reported a negative one. `None` where the buffer
/// that was handed to the board was too small for `num_rows` rows of
/// `num_samples` samples.
pub open spec fn reading_size(
    current_size: i32,
    num_rows: nat,
    num_samples: nat,
    buffer_len: nat,
) -> Option<nat> {
    if buffer_len < num_rows * num_samples {
        None
    } else if current_size < 0 {
        Some(0)
    } else {
        Some(current_size as nat)
    }
}

/// Judges a board reading: see `reading_size`.
pub fn samples_read(current_size: i32, num_rows: usize, num_samples: usize, buffer_len: usize) -> (size:
    Option<usize>)
    ensures
        size.is_some() <==> reading_size(
            current_size,
            num_rows as nat,
            num_samples as nat,
            buffer_len as nat,
        ).is_some(),
        size matches Some(count) ==> reading_size(
            current_size,
            num_rows as nat,
            num_samples as nat,
            buffer_len as nat,
        ) == Some(count as nat),
{
    let rows: u128 = num_rows as u128;
    let per_row: u128 = num_samples as u128;
    assert(rows * per_row <= 0xffff_ffff_ffff_ffff * 0xffff_ffff_ffff_ffff) by (nonlinear_arith)
        requires
            rows <= 0xffff_ffff_ffff_ffff,
            per_row <= 0xffff_ffff_ffff_ffff,
    ;
    let expected: u128 = rows * per_row;
    if (buffer_len as u128) < expected {
        return None;
    }
    if current_size < 0 {
        Some(0)
    } else {
        Some(current_size as usize)
    }
}

/// Whether the reading holds the latest sample of row `channel`: the row
/// exists and its last sample lies within the buffer.
pub open spec fn row_is_read(channel: i32, num_rows: nat, available: nat, buffer_len: nat) -> bool {
    &&& 0 <= channel < num_rows
    &&& available > 0
    &&& channel * available + available - 1 < buffer_len
}

/// The latest sample of every row that `channels` names and the reading
/// holds, in the order of `channels`. A reading lays its rows out one after
/// the other, `available` samples each.
pub open spec fn latest_of_rows<T>(
    buffer: Seq<T>,
    num_rows: nat,
    available: nat,
    channels: Seq<i32>,
) -> Seq<T>
    decreases channels.len(),
{
    if channels.len() == 0 {
        Seq::empty()
    } else {
        let before = latest_of_rows(buffer, num_rows, available, channels.drop_last());
        let channel = channels.last();
        if row_is_read(channel, num_rows, available, buffer.len()) {
            before.push(buffer[channel * available + available - 1])
        } else {
            before
        }
    }
}

/// The most recent sample of the rows that `eeg_channels` names, out of a
/// reading of `available` samples per row. `None` for an empty reading and
/// where the reading holds none of the rows.
pub fn latest_sample<T: Copy>(
    buffer: &[T],
    num_rows: usize,
    available: usize,
    eeg_channels: &[i32],
) -> (sample: Option<Vec<T>>)
    ensures
        sample.is_some() <==> latest_of_rows(
            buffer@,
            num_rows as nat,
            available as nat,
            eeg_channels@,
        ).len() > 0,
        sample matches Some(values) ==> values@ == latest_of_rows(
            buffer@,
            num_rows as nat,
            available as nat,
            eeg_channels@,
        ),
{
    let mut values: Vec<T> = Vec::new();
    let mut k: usize = 0;
    while k < eeg_channels.len()
        invariant
            k <= eeg_channels@.len(),
            values@ == latest_of_rows(
                buffer@,
                num_rows as nat,
                available as nat,
                eeg_channels@.subrange(0, k as int),
            ),
        decreases eeg_channels@.len() - k,
    {
        let channel: i32 = eeg_channels[k];
        proof {
            let upto = eeg_channels@.subrange(0, k as int + 1);
            assert(upto.drop_last() =~= eeg_channels@.subrange(0, k as int));
            assert(upto.last() == channel);
        }
        if available > 0 && channel >= 0 && (channel as u128) < num_rows as u128 {
            let row: u128 = channel as u128;
            let per_row: u128 = available as u128;
            assert(row * per_row <= 0x7fff_ffff * 0xffff_ffff_ffff_ffff) by (nonlinear_arith)
                requires
                    row <= 0x7fff_ffff,
                    per_row <= 0xffff_ffff_ffff_ffff,
            ;
            let offset: u128 = row * per_row + (per_row - 1);
            if offset < buffer.len() as u128 {
                values.push(buffer[offset as usize]);
            }
        }
        k += 1;
    }
    assert(eeg_channels@.subrange(0, eeg_channels@.len() as int) =~= eeg_channels@);
    if values.len() == 0 {
        None
    } else {
        Some(values)
    }
}

/// Where a session stands.
#[derive(Clone, Copy, Debug, PartialEq, Eq, Structural)]
pub struct SessionState {
    /// Whether the board is streaming.
    pub is_streaming: bool,
    /// Whether the session was released.
    pub released: bool,
}

/// What is asked of the board next.
#[derive(Clone, Copy, Debug, PartialEq, Eq, Structural)]
pub enum SessionStep {
    /// Start the stream.
    StartStream,
    /// Stop the stream.
    StopStream,
    /// Release the session.
    Release,
}

impl SessionState {
    /// A session that was prepared: not streaming, not released.
    pub fn prepared() -> (state: Self)
        ensures
            state == (SessionState { is_streaming: false, released: false }),
    {
        SessionState { is_streaming: false, released: false }
    }

    /// What starting the stream asks of the board: to start it, unless it
    /// streams already.
    pub open spec fn start_step(self) -> Option<SessionStep> {
        if self.is_streaming {
            None
        } else {
            Some(SessionStep::StartStream)
        }
    }

    /// What winding the session down asks of the board next: to stop the
    /// stream where it streams, then to release the session; nothing once it
    /// was released.
    pub open spec fn stop_step(self) -> Option<SessionStep> {
        if self.released {
            None
        } else if self.is_streaming {
            Some(SessionStep::StopStream)
        } else {
            Some(SessionStep::Release)
        }
    }

    /// The session after the board did `step`.
    pub open spec fn after(self, step: SessionStep) -> SessionState {
        match step {
            SessionStep::StartStream => SessionState { is_streaming: true, ..self },
            SessionStep::StopStream => SessionState { is_streaming: false, ..self },
            SessionStep::Release => SessionState { released: true, ..self },
        }
    }

    /// The step that starts the stream; `None` where it streams already.
    pub fn next_start_step(&self) -> (step: Option<SessionStep>)
        ensures
            step == self.start_step(),
    {
        if self.is_streaming {
            None
        } else {
            Some(SessionStep::StartStream)
        }
    }

    /// The next step of winding the session down; `None` once it is done.
    pub fn next_stop_step(&self) -> (step: Option<SessionStep>)
        ensures
            step == self.stop_step(),
    {
        if self.released {
            None
        } else if self.is_streaming {
            Some(SessionStep::StopStream)
        } else {
            Some(SessionStep::Release)
        }
    }

    /// Records that the board did `step`.
    pub fn record(&mut self, step: SessionStep)
        ensures
            *final(self) == old(self).after(step),
    {
        match step {
            SessionStep::StartStream => {
                self.is_streaming = true;
            },
            SessionStep::StopStream => {
                self.is_streaming = false;
            },
            SessionStep::Release => {
                self.released = true;
            },
        }
    }
}

/// Winding a session down takes two steps at most, in the order stop, then
/// release, and leaves it released and not streaming.
pub proof fn lemma_stop_ends_released(state: SessionState)
    ensures
        ({
            let once = match state.stop_step() {
                Some(step) => state.after(step),
                None => state,
            };
            let twice = match once.stop_step() {
                Some(step) => once.after(step),
                None => once,
            };
            &&& twice.released
            &&& twice.stop_step().is_none()
            &&& !state.released ==> !twice.is_streaming
            &&& state.released ==> twice == state
        }),
{
}

} // verus!
