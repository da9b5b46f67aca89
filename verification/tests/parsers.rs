use pinger::android::AndroidParser;
use pinger::linux::LinuxParser;
use pinger::macos::MacOSParser;
use pinger::platform::Platform;
use pinger::windows::WindowsParser;
use pinger::{Latency, Parser, PingResult};

fn pong(micros: u64) -> Option<PingResult> {
    Some(PingResult::Pong(Latency { micros }))
}

fn run<P: Parser>(lines: &[&str]) -> Vec<Option<PingResult>> {
    let parser = P::default();
    lines.iter().map(|l| parser.parse(l.to_string())).collect()
}

#[test]
fn macos() {
    let parsed = run::<MacOSParser>(&[
        "PING example.com (1.1.1.1): 56 data bytes",
        "64 bytes from 1.1.1.1: icmp_seq=0 ttl=57 time=12.345 ms",
        "64 bytes from 1.1.1.1: icmp_seq=1 ttl=57 time=9.8 ms",
        "Request timeout for icmp_seq 3",
        "64 bytes from 1.1.1.1: icmp_seq=4 ttl=57 time=110 ms",
        "",
        "--- example.com ping statistics ---",
        "5 packets transmitted, 3 packets received, 40.0% packet loss",
    ]);
    assert_eq!(
        parsed,
        vec![
            None,
            pong(12345),
            pong(9800),
            Some(PingResult::Timeout),
            pong(110000),
            None,
            None,
            None,
        ]
    );
}

#[test]
fn ubuntu() {
    let parsed = run::<LinuxParser>(&[
        "PING 1.1.1.1 (1.1.1.1) 56(84) bytes of data.",
        "64 bytes from 1.1.1.1: icmp_seq=1 ttl=64 time=11.3 ms",
        "no answer yet for icmp_seq=2",
        "64 bytes from 1.1.1.1: icmp_seq=3 ttl=64 time=0.045 ms",
        "64 bytes from 1.1.1.1: icmp_seq=4 ttl=64 TIME=7ms",
        "64 bytes from 1.1.1.1: icmp_seq=5 ttl=64",
        "From 10.0.0.1 icmp_seq=6 Destination Host Unreachable",
        "--- 1.1.1.1 ping statistics ---",
    ]);
    assert_eq!(
        parsed,
        vec![
            None,
            pong(11300),
            Some(PingResult::Timeout),
            pong(45),
            pong(7000),
            None,
            None,
            None,
        ]
    );
}

#[test]
fn windows() {
    let parsed = run::<WindowsParser>(&[
        "Pinging 1.1.1.1 with 32 bytes of data:",
        "Reply from 1.1.1.1: bytes=32 time=15ms TTL=64",
        "Request timed out.",
        "General failure.",
        "Reply from 1.1.1.1: bytes=32 Time=3.5MS TTL=64",
        "Reply from 1.1.1.1: bytes=32 time<1ms TTL=64",
        "",
    ]);
    assert_eq!(
        parsed,
        vec![
            None,
            pong(15000),
            Some(PingResult::Timeout),
            Some(PingResult::Timeout),
            pong(3500),
            None,
            None,
        ]
    );
}

#[test]
fn android_lines() {
    let parsed = run::<AndroidParser>(&[
        "PING 1.1.1.1 (1.1.1.1) 56(84) bytes of data.",
        "64 bytes from 1.1.1.1: icmp_seq=1 ttl=57 time=23.4 ms",
        "no answer yet for icmp_seq=2",
        "rtt min/avg/max/mdev = 23.4/23.4/23.4/0.0 ms",
    ]);
    assert_eq!(parsed, vec![None, pong(23400), Some(PingResult::Timeout), None]);
}

#[test]
fn linux_answer_needs_its_prefix() {
    let parser = LinuxParser::default();
    assert_eq!(parser.parse("reply: time=11.3 ms".to_string()), None);
    assert_eq!(parser.parse(" 64 bytes from 1.1.1.1: time=11.3 ms".to_string()), None);
    assert_eq!(parser.parse("No answer yet for icmp_seq=2".to_string()), None);
}

#[test]
fn macos_is_case_sensitive() {
    let parser = MacOSParser::default();
    assert_eq!(parser.parse("64 bytes from 1.1.1.1: TIME=12.3 ms".to_string()), None);
    assert_eq!(parser.parse("ping example.com".to_string()), None);
    assert_eq!(parser.parse("PING time=12.3 ms".to_string()), None);
    assert_eq!(parser.parse("time=12.3 ms".to_string()), pong(12300));
}

#[test]
fn macos_passes_over_a_figure_that_is_no_number() {
    let parser = MacOSParser::default();
    assert_eq!(parser.parse("64 bytes from 1.1.1.1: time=1.2.3 ms".to_string()), None);
    assert_eq!(parser.parse("64 bytes from 1.1.1.1: time=. ms".to_string()), None);
    assert_eq!(parser.parse("64 bytes from 1.1.1.1: time=.5 ms".to_string()), pong(500));
    assert_eq!(parser.parse("64 bytes from 1.1.1.1: time=5. ms".to_string()), pong(5000));
}

#[test]
fn windows_timeout_comes_before_time() {
    let parser = WindowsParser::default();
    assert_eq!(
        parser.parse("time=15ms but the request timed out".to_string()),
        Some(PingResult::Timeout)
    );
    assert_eq!(parser.parse("transmit failure".to_string()), Some(PingResult::Timeout));
    assert_eq!(parser.parse("Timed Out".to_string()), None);
}

#[test]
fn classifying_twice_gives_the_same() {
    let lines = [
        "64 bytes from 1.1.1.1: icmp_seq=1 ttl=64 time=11.3 ms",
        "no answer yet for icmp_seq=2",
        "something else",
    ];
    for platform in [Platform::Linux, Platform::MacOS, Platform::Windows, Platform::Android] {
        for line in lines {
            assert_eq!(platform.parse(line.to_string()), platform.parse(line.to_string()));
        }
    }
}

#[test]
fn platform_parse_agrees_with_its_parser() {
    let line = "64 bytes from 1.1.1.1: icmp_seq=1 ttl=64 time=11.3 ms";
    assert_eq!(Platform::Linux.parse(line.to_string()), LinuxParser::default().parse(line.to_string()));
    assert_eq!(Platform::MacOS.parse(line.to_string()), MacOSParser::default().parse(line.to_string()));
    assert_eq!(
        Platform::Android.parse(line.to_string()),
        AndroidParser::default().parse(line.to_string())
    );
    let reply = "Reply from 1.1.1.1: bytes=32 time=15ms TTL=64";
    assert_eq!(
        Platform::Windows.parse(reply.to_string()),
        WindowsParser::default().parse(reply.to_string())
    );
    assert_eq!(Platform::Windows.parse(reply.to_string()), pong(15000));
}

#[test]
fn extract_regex_reads_the_named_group() {
    let parser = LinuxParser::default();
    assert_eq!(
        parser.extract_regex(r"took (?P<time>[0-9.]+)", "it took 2.5 units".to_string()),
        pong(2500)
    );
    assert_eq!(parser.extract_regex(r"took (?P<time>[0-9.]+)", "nothing here".to_string()), None);
    assert_eq!(parser.extract_regex(r"took (?P<other>[0-9.]+)", "it took 2.5".to_string()), None);
    assert_eq!(parser.extract_regex(r"took (", "it took 2.5".to_string()), None);
    assert_eq!(parser.extract_regex(r"(?P<time>.*)", "12".to_string()), pong(12000));
    assert_eq!(parser.extract_regex(r"(?P<time>.*)", "12 ms".to_string()), None);
}
