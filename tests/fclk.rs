use powertools::fclk::{build_memory_clock_payload, memory_clock_payload, parse_pp_dpm_fclk, quantize_memory_clock};

const LISTING: &str = "0: 400Mhz *\n1: 800Mhz\n2: 1200Mhz\n";

#[test]
fn parse_levels() {
    assert_eq!(parse_pp_dpm_fclk(LISTING), vec![(0, 400), (1, 800), (2, 1200)]);
}

#[test]
fn parse_stops_at_empty_line_and_skips_bad_lines() {
    assert_eq!(parse_pp_dpm_fclk("0: 400Mhz\nx: 5Mhz\n1:  800 Mhz \n\n2: 1200Mhz\n"), vec![(0, 400), (1, 800)]);
    assert_eq!(parse_pp_dpm_fclk("0: 400\n"), vec![]);
    assert_eq!(parse_pp_dpm_fclk("+3: 9x"), vec![(3, 9)]);
    assert_eq!(parse_pp_dpm_fclk(""), vec![]);
}

#[test]
fn quantize_rounds_down() {
    let options = vec![(0, 400), (1, 800), (2, 1200)];
    assert_eq!(quantize_memory_clock(&options, 800), 1);
    assert_eq!(quantize_memory_clock(&options, 1000), 1);
    assert_eq!(quantize_memory_clock(&options, 100), 0);
    assert_eq!(quantize_memory_clock(&options, 5000), 2);
}

#[test]
fn payload_lists_levels() {
    assert_eq!(build_memory_clock_payload(0), "0\n");
    assert_eq!(build_memory_clock_payload(3), "0 1 2 3\n");
    assert_eq!(memory_clock_payload(Some(LISTING), 1000, false), "0 1\n");
    assert_eq!(memory_clock_payload(None, 1000, false), "0 1\n");
    assert_eq!(memory_clock_payload(None, 1000, true), "0\n");
    assert_eq!(memory_clock_payload(Some(""), 1000, true), "0\n");
}
