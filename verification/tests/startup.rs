use rusty_shark::capture::{CaptureEngine, CaptureEvent, CaptureStep};
use rusty_shark::error::{PcapFault, SnifferError};
use rusty_shark::prompt::{choose_device, device_line, filter_expression};

fn names(list: &[&str]) -> Vec<String> {
    list.iter().map(|s| s.to_string()).collect()
}

#[test]
fn typed_number_chooses_the_device() {
    assert_eq!(choose_device("2\n", 6), 2);
    assert_eq!(choose_device("  0005\r\n", 6), 5);
    assert_eq!(choose_device("+3", 6), 3);
}

#[test]
fn anything_else_chooses_the_fifth() {
    for line in ["\n", "", "eth0\n", "+", "-1", "1 2", "++1", "0x1", "1.0", "１"] {
        assert_eq!(choose_device(line, 6), 4, "{:?}", line);
    }
}

#[test]
fn missing_device_becomes_the_first() {
    assert_eq!(choose_device("6\n", 6), 0);
    assert_eq!(choose_device("\n", 4), 0);
    assert_eq!(choose_device("\n", 5), 4);
}

#[test]
fn number_beyond_the_machine_is_no_number() {
    let largest = format!("{}\n", usize::MAX);
    assert_eq!(choose_device(&largest, 6), 0);
    assert_eq!(choose_device("18446744073709551616\n", 6), 4);
    assert_eq!(choose_device("99999999999999999999999999\n", 6), 4);
    assert_eq!(choose_device("00000000000000000000000000000001\n", 6), 1);
}

#[test]
fn choice_agrees_with_the_standard_library() {
    for line in [" 1\t", "\u{3000}2\u{2003}", "\u{200B}2", "3\u{85}", "٣", "+0", "", " + 1", "\u{FEFF}1"] {
        let choice: usize = line.trim().parse().unwrap_or(4);
        let expected = if choice < 9 { choice } else { 0 };
        assert_eq!(choose_device(line, 9), expected, "{:?}", line);
    }
}

#[test]
fn white_space_is_that_of_the_standard_library() {
    for n in 0..0x3100u32 {
        if let Some(c) = char::from_u32(n) {
            let line = format!("{}x{}", c, c);
            assert_eq!(filter_expression(&line), line.trim(), "U+{:04X}", n);
        }
    }
}

#[test]
fn offered_number_chooses_its_own_device() {
    for i in 0..200 {
        assert_eq!(choose_device(&format!("{}\n", i), 200), i);
    }
}

#[test]
fn filter_loses_its_line_end() {
    assert_eq!(filter_expression("tcp port 80\n"), "tcp port 80");
    assert_eq!(filter_expression(" \t udp \r\n"), "udp");
    assert_eq!(filter_expression("\n"), "");
    assert_eq!(filter_expression(""), "");
}

#[test]
fn device_is_offered_under_its_number() {
    assert_eq!(
        device_line(12, "eth0", "Some(\"LAN\")"),
        "[12] 名字: eth0 | 描述: Some(\"LAN\")"
    );
}

#[test]
fn first_device_of_the_name_is_opened() {
    let devices = names(&["lo", "eth0", "wlan0", "eth0"]);
    let settings = CaptureEngine::start_capture(&devices, "eth0", "").unwrap();
    assert_eq!(settings.device, 1);
    assert!(settings.promiscuous);
    assert_eq!((settings.snapshot_length, settings.timeout), (65535, 1000));
    assert_eq!(settings.filter, None);
}

#[test]
fn filter_is_handed_on() {
    let devices = names(&["lo"]);
    let settings = CaptureEngine::start_capture(&devices, "lo", "tcp").unwrap();
    assert_eq!(settings.filter.as_deref(), Some("tcp"));
    assert!(settings.optimized);
}

#[test]
fn missing_device_is_an_error() {
    let devices = names(&["lo", "eth0"]);
    for name in ["eth", "eth00", "", "Eth0"] {
        assert!(matches!(
            CaptureEngine::start_capture(&devices, name, "tcp"),
            Err(SnifferError::DeviceNotFound)
        ));
    }
    assert!(CaptureEngine::start_capture(&[], "lo", "").is_err());
}

#[test]
fn packet_is_delivered() {
    let step = CaptureEngine::next_step(CaptureEvent::Received(vec![1, 2, 3]));
    assert!(matches!(step, CaptureStep::Deliver(p) if p == [1, 2, 3]));
    assert!(matches!(CaptureEngine::next_step(CaptureEvent::Delivered), CaptureStep::Read));
}

#[test]
fn closed_channel_ends_the_capture() {
    assert!(matches!(CaptureEngine::next_step(CaptureEvent::ChannelClosed), CaptureStep::Stop));
}

#[test]
fn timeout_reads_again_and_failure_ends() {
    assert!(matches!(CaptureEngine::next_step(CaptureEvent::Failed(timeout())), CaptureStep::Read));
    let CaptureStep::Fail(text) = CaptureEngine::next_step(CaptureEvent::Failed(failure())) else {
        panic!("no failure")
    };
    assert_eq!(text, "[Capture] 后台抓包遭遇致命错误: NoMorePackets");
}

fn timeout() -> PcapFault {
    PcapFault {
        timeout_expired: true,
        text: "timeout expired while reading from a live capture".to_string(),
        debug: "TimeoutExpired".to_string(),
    }
}

fn failure() -> PcapFault {
    PcapFault {
        timeout_expired: false,
        text: "no more packets to read from the file".to_string(),
        debug: "NoMorePackets".to_string(),
    }
}

/// Runs a capture: how many reads it makes, what it tries to hand on, and its last step.
fn run(
    reads: Vec<Result<Vec<u8>, PcapFault>>,
    taken: usize,
) -> (usize, Vec<Vec<u8>>, CaptureStep) {
    let mut reads = reads.into_iter();
    let (mut made, mut sent) = (0, Vec::new());
    let mut step = CaptureStep::Read;
    loop {
        let event = match step {
            CaptureStep::Read => match reads.next() {
                Some(Ok(packet)) => CaptureEvent::Received(packet),
                Some(Err(fault)) => CaptureEvent::Failed(fault),
                None => return (made, sent, CaptureStep::Read),
            },
            CaptureStep::Deliver(packet) => {
                sent.push(packet);
                if sent.len() <= taken {
                    CaptureEvent::Delivered
                } else {
                    CaptureEvent::ChannelClosed
                }
            }
            step => return (made, sent, step),
        };
        if matches!(event, CaptureEvent::Received(_) | CaptureEvent::Failed(_)) {
            made += 1;
        }
        step = CaptureEngine::next_step(event);
    }
}

#[test]
fn open_channel_gets_every_packet() {
    let reads =
        vec![Ok(vec![1]), Err(timeout()), Ok(vec![2, 3]), Ok(vec![1]), Err(timeout())];
    let (made, sent, last) = run(reads, 3);
    assert_eq!(made, 5);
    assert_eq!(sent, [vec![1], vec![2, 3], vec![1]]);
    assert!(matches!(last, CaptureStep::Read));
}

#[test]
fn nothing_is_read_behind_a_failure() {
    let reads = vec![Ok(vec![1]), Err(timeout()), Err(failure()), Ok(vec![2])];
    let (made, sent, last) = run(reads, 9);
    assert_eq!(made, 3);
    assert_eq!(sent, [vec![1]]);
    assert!(matches!(
        last,
        CaptureStep::Fail(text) if text == "[Capture] 后台抓包遭遇致命错误: NoMorePackets"
    ));
}

#[test]
fn nothing_is_read_where_nobody_listens() {
    let reads = vec![Ok(vec![1]), Err(timeout()), Ok(vec![2]), Ok(vec![3]), Err(failure())];
    let (made, sent, last) = run(reads, 1);
    assert_eq!(made, 3);
    assert_eq!(sent, [vec![1], vec![2]]);
    assert!(matches!(last, CaptureStep::Stop));
}
