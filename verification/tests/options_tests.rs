use syndicatfx::options::{process_options, parse_unsigned, classify_option, CmdOption, CmdOptions};

fn defaults() -> CmdOptions {
    CmdOptions {
        fullscreen: true,
        lores_stretch: true,
        aud_flags: 3,
        unused_option_p: 0,
        network_name: vec![0u8; 18],
        language: 0,
        language_3str: vec![b'e', b'n', b'g', 0],
        draw_flags: 1,
        sndcard_irq: 0,
        sndcard_dma: 0,
        sndcard_ioaddr: 0,
    }
}

fn args(list: &[&str]) -> Vec<Vec<u8>> {
    list.iter().map(|s| s.as_bytes().to_vec()).collect()
}

#[test]
fn parse_unsigned_accepts_what_str_parse_accepts() {
    assert_eq!(parse_unsigned(b"42", 255), Some(42));
    assert_eq!(parse_unsigned(b"+7", 255), Some(7));
    assert_eq!(parse_unsigned(b"255", 255), Some(255));
    assert_eq!(parse_unsigned(b"256", 255), None);
    assert_eq!(parse_unsigned(b"", 255), None);
    assert_eq!(parse_unsigned(b"+", 255), None);
    assert_eq!(parse_unsigned(b"-1", 255), None);
    assert_eq!(parse_unsigned(b"1x", 255), None);
    assert_eq!(parse_unsigned(b"00065535", 65535), Some(65535));
    assert_eq!(parse_unsigned(b"99999999999", 65535), None);
}

#[test]
fn options_by_long_and_short_name() {
    assert_eq!(classify_option(b"--windowed"), CmdOption::Windowed);
    assert_eq!(classify_option(b"-w"), CmdOption::Windowed);
    assert_eq!(classify_option(b"-S"), CmdOption::NoStretch);
    assert_eq!(classify_option(b"--iio"), CmdOption::IIo);
    assert_eq!(classify_option(b"--windowe"), CmdOption::Other);
}

#[test]
fn options_are_read() {
    let mut o = defaults();
    let a = args(&["prog", "-w", "--nosound", "--nport", "40", "-n", "AGENTSMITHWHOISLONG", "-c", "2", "-L", "-R", "7", "-D", "x", "--iio", "+544"]);
    assert!(!process_options(&a, &mut o));
    assert!(!o.fullscreen);
    assert!(o.lores_stretch);
    assert_eq!(o.aud_flags, 0);
    assert_eq!(o.unused_option_p, 16);
    assert_eq!(&o.network_name[..], b"AGENTSMITHWHOISLO\0");
    assert_eq!(o.language, 2);
    assert_eq!(o.language_3str, b"ita\0".to_vec());
    assert_eq!(o.draw_flags, 4);
    assert_eq!(o.sndcard_irq, 7);
    assert_eq!(o.sndcard_dma, 0);
    assert_eq!(o.sndcard_ioaddr, 544);
}

#[test]
fn language_without_text_falls_back_to_english() {
    let mut o = defaults();
    assert!(!process_options(&args(&["prog", "--colang", "4"]), &mut o));
    assert_eq!(o.language_3str, b"pol\0".to_vec());
    assert_eq!(o.language, 0);
    let mut o2 = defaults();
    assert!(!process_options(&args(&["prog", "--colang", "9"]), &mut o2));
    assert_eq!(o2.language_3str, b"eng\0".to_vec());
    assert_eq!(o2.language, 0);
}

#[test]
fn help_stops_reading() {
    let mut o = defaults();
    assert!(process_options(&args(&["prog", "-w", "--help", "-S"]), &mut o));
    assert!(!o.fullscreen);
    assert!(o.lores_stretch);
}

#[test]
fn option_without_value_at_end() {
    let mut o = defaults();
    assert!(!process_options(&args(&["prog", "-H", "--nport"]), &mut o));
    assert_eq!(o.draw_flags, 2);
    assert_eq!(o.unused_option_p, 0);
}
