use device_drivers::bus::{CountDown, SerialRead, SerialWrite};
use device_drivers::mhz19::{
    auto_calibration_request, build_frame, concentration_of, crc, frame_is_valid,
    read_concentration_request, Collect, Command, Mhz19, Mhz19Errors, PollEvent, ReceiveState,
};
use std::collections::VecDeque;

struct DumpTimer {
    counter: u32,
    timeout: u32,
}

impl DumpTimer {
    fn new() -> Self {
        DumpTimer { counter: 0, timeout: 0 }
    }
}

impl CountDown for DumpTimer {
    fn start(&mut self, ticks: u32) {
        self.counter = 0;
        self.timeout = ticks;
    }

    fn expired(&mut self) -> bool {
        self.counter += 1;
        self.counter >= self.timeout
    }
}

/// A sensor double: answers each valid request for the concentration with
/// `reply`, and refuses writes once `accept` bytes have been taken.
struct DumpSerial {
    input_data: VecDeque<u8>,
    output_data: VecDeque<u8>,
    reply: Vec<u8>,
    accept: usize,
    written: Vec<u8>,
}

impl DumpSerial {
    fn new(reply: Vec<u8>) -> Self {
        DumpSerial {
            input_data: VecDeque::new(),
            output_data: VecDeque::new(),
            reply,
            accept: usize::MAX,
            written: Vec::new(),
        }
    }

    fn receive(&mut self, data: u8) {
        self.input_data.push_back(data);
        if self.input_data.len() == 9 {
            let frame: Vec<u8> = self.input_data.drain(..).collect();
            if crc(&frame[0..8]) == frame[8] && frame[0] == 0xFF && frame[1] == 0x01 && frame[2] == 0x86 {
                for &b in self.reply.iter() {
                    self.output_data.push_back(b);
                }
            }
        }
    }
}

impl SerialWrite for DumpSerial {
    fn write(&mut self, word: u8) -> Result<(), ()> {
        if self.written.len() >= self.accept {
            return Err(());
        }
        self.written.push(word);
        self.receive(word);
        Ok(())
    }
}

impl SerialRead for DumpSerial {
    fn read(&mut self) -> Option<u8> {
        self.output_data.pop_front()
    }
}

fn reply_with(data: [u8; 8]) -> Vec<u8> {
    let mut v = data.to_vec();
    v.push(crc(&data));
    v
}

fn read_concentration(dev: &mut Mhz19<DumpSerial, DumpTimer>) -> Result<u16, Mhz19Errors> {
    dev.send_read_request()?;
    dev.start_response();
    loop {
        let ev = dev.poll();
        match dev.feed(ev) {
            Collect::Pending => {}
            Collect::Complete(f) => return Ok(concentration_of(&f)),
            Collect::Failed(e) => return Err(e),
        }
    }
}

#[test]
fn test_crc() {
    let test_data_1: [u8; 9] = [0xFF, 0x01, 0x86, 0x00, 0x00, 0x00, 0x00, 0x00, 0x79];
    let test_data_2: [u8; 9] = [0xFF, 0x01, 0x87, 0x00, 0x00, 0x00, 0x00, 0x00, 0x78];
    let test_data_3: [u8; 9] = [0xFF, 0x01, 0x88, 0x07, 0xD0, 0x00, 0x00, 0x00, 0xA0];

    assert_eq!(crc(&test_data_1[0..8]), test_data_1[8]);
    assert_eq!(crc(&test_data_2[0..8]), test_data_2[8]);
    assert_eq!(crc(&test_data_3[0..8]), test_data_3[8]);
}

#[test]
fn test_get_co2() {
    let serial = DumpSerial::new(reply_with([0xFF, 0x01, 0x04, 0xB0, 0x00, 0x00, 0x00, 0x00]));
    let timer = DumpTimer::new();
    let mut mhz = Mhz19::new(serial, timer);

    let co2 = read_concentration(&mut mhz).unwrap_or(0);

    assert_eq!(co2, 1200);
}

#[test]
fn checksum_is_stable_and_has_no_increment() {
    let body = [0x12u8, 0x34, 0x56, 0x78, 0x9A, 0xBC, 0xDE, 0xF0];
    let sum = body.iter().fold(0u8, |a, b| a.wrapping_add(*b));
    assert_eq!(crc(&body), crc(&body));
    assert_eq!(crc(&body), 255 - sum);
    assert_eq!(crc(&[0u8; 8]), 0xFF);
    assert_eq!(crc(&[0x01, 0, 0, 0, 0, 0, 0, 0]), 0xFE);
}

#[test]
fn built_frames_pass_their_own_check() {
    for cmd in [0x86u8, 0x87, 0x88, 0x79, 0x99, 0x00, 0xFF] {
        let f = build_frame(cmd, [1, 2, 3, 4, 250]);
        assert!(frame_is_valid(&f));
        assert_eq!(&f[0..8], &[0xFF, 0x01, cmd, 1, 2, 3, 4, 250]);
    }
}

#[test]
fn request_frames() {
    assert_eq!(read_concentration_request(), [0xFF, 0x01, 0x86, 0, 0, 0, 0, 0, 0x79]);
    assert_eq!(auto_calibration_request(true), [0xFF, 0x01, 0x79, 0xA0, 0, 0, 0, 0, 0xE6]);
    assert_eq!(auto_calibration_request(false), [0xFF, 0x01, 0x79, 0, 0, 0, 0, 0, 0x86]);
    assert_eq!(Command::CalibrateSpanPoint.code(), 0x88);
    assert_eq!(Command::DetectionRangeSetting.code(), 0x99);
}

#[test]
fn corrupted_frame_is_rejected() {
    let mut f = build_frame(0x86, [0x04, 0xB0, 0, 0, 0]);
    f[8] ^= 0x01;
    assert!(!frame_is_valid(&f));
}

#[test]
fn concentration_is_big_endian() {
    let f = build_frame(0x04, [0xB0, 0, 0, 0, 0]);
    assert_eq!(concentration_of(&f), 1200);
    let g = [0xFF, 0x01, 0xB0, 0x00, 0, 0, 0, 0, 0];
    assert_eq!(concentration_of(&g), 45056);
}

#[test]
fn read_happy_path() {
    let serial = DumpSerial::new(reply_with([0xFF, 0x01, 0x04, 0xB0, 0x00, 0x00, 0x00, 0x00]));
    let mut mhz = Mhz19::new(serial, DumpTimer::new());
    assert_eq!(read_concentration(&mut mhz), Ok(1200));
}

#[test]
fn read_times_out_on_silence() {
    let mut mhz = Mhz19::new(DumpSerial::new(Vec::new()), DumpTimer::new());
    assert_eq!(read_concentration(&mut mhz), Err(Mhz19Errors::TimedOut));
}

#[test]
fn read_reports_corruption() {
    let mut reply = reply_with([0xFF, 0x01, 0x04, 0xB0, 0x00, 0x00, 0x00, 0x00]);
    reply[8] ^= 0x01;
    let mut mhz = Mhz19::new(DumpSerial::new(reply), DumpTimer::new());
    assert_eq!(read_concentration(&mut mhz), Err(Mhz19Errors::IntegrityFailure));
}

#[test]
fn read_times_out_on_truncated_reply() {
    let reply = vec![0xFF, 0x01, 0x04, 0xB0];
    let mut mhz = Mhz19::new(DumpSerial::new(reply), DumpTimer::new());
    assert_eq!(read_concentration(&mut mhz), Err(Mhz19Errors::TimedOut));
}

#[test]
fn repeated_reads_agree() {
    let serial = DumpSerial::new(reply_with([0xFF, 0x01, 0x01, 0x90, 0x00, 0x00, 0x00, 0x00]));
    let mut mhz = Mhz19::new(serial, DumpTimer::new());
    let first = read_concentration(&mut mhz);
    let second = read_concentration(&mut mhz);
    assert_eq!(first, Ok(400));
    assert_eq!(first, second);
}

#[test]
fn read_after_truncated_reply_is_clean() {
    let mut rx = ReceiveState::new();
    for b in [0xFF, 0x01, 0x04, 0xB0] {
        assert!(matches!(rx.step(PollEvent::Received(b)), Collect::Pending));
    }
    assert!(matches!(rx.step(PollEvent::Expired), Collect::Failed(Mhz19Errors::TimedOut)));
    assert_eq!(rx.count(), 0);
    let reply = reply_with([0xFF, 0x01, 0x04, 0xB0, 0x00, 0x00, 0x00, 0x00]);
    let mut result = Collect::Pending;
    for &b in reply.iter() {
        assert!(matches!(rx.step(PollEvent::Idle), Collect::Pending));
        result = rx.step(PollEvent::Received(b));
    }
    match result {
        Collect::Complete(f) => assert_eq!(concentration_of(&f), 1200),
        _ => panic!("expected a frame"),
    }
}

#[test]
fn write_failure_stops_the_request() {
    let mut serial = DumpSerial::new(Vec::new());
    serial.accept = 3;
    let mut mhz = Mhz19::new(serial, DumpTimer::new());
    assert_eq!(mhz.send_read_request(), Err(Mhz19Errors::WriteFailed));
    assert_eq!(mhz.send_auto_calibration(true), Err(Mhz19Errors::WriteFailed));
}

#[test]
fn auto_calibration_is_sent() {
    let mut mhz = Mhz19::new(DumpSerial::new(Vec::new()), DumpTimer::new());
    assert_eq!(mhz.send_auto_calibration(false), Ok(()));
    assert_eq!(mhz.command(0x99, [0, 0, 0, 0x07, 0xD0]), Ok(()));
}
