use pcap_async::Config;

#[test]
fn default_config_has_the_documented_values() {
    let c = Config::default();
    assert_eq!(c.max_packets_read(), 1000);
    assert_eq!(c.snaplen(), 65535);
    assert_eq!(c.buffer_size(), 16777216);
    assert_eq!(c.timeout(), 100);
    assert_eq!(c.bpf(), &None);
}

#[test]
fn new_config_keeps_every_option() {
    let c = Config::new(5, 128, 4096, 250, Some("tcp".to_owned()));
    assert_eq!(c.max_packets_read(), 5);
    assert_eq!(c.snaplen(), 128);
    assert_eq!(c.buffer_size(), 4096);
    assert_eq!(c.timeout(), 250);
    assert_eq!(c.bpf(), &Some("tcp".to_owned()));
}

#[test]
fn builders_change_one_option_each() {
    let mut c = Config::default();
    c.with_max_packets_read(5000);
    assert_eq!(c, Config::new(5000, 65535, 16777216, 100, None));
    c.with_snaplen(96);
    assert_eq!(c, Config::new(5000, 96, 16777216, 100, None));
    c.with_buffer_size(1 << 20);
    assert_eq!(c, Config::new(5000, 96, 1 << 20, 100, None));
    c.with_timeout(7);
    assert_eq!(c, Config::new(5000, 96, 1 << 20, 7, None));
    c.with_bpf("port 443".to_owned());
    assert_eq!(c, Config::new(5000, 96, 1 << 20, 7, Some("port 443".to_owned())));
}

#[test]
fn builders_chain() {
    let mut c = Config::default();
    c.with_max_packets_read(1).with_snaplen(64).with_bpf("udp".to_owned()).with_timeout(0);
    assert_eq!(c, Config::new(1, 64, 16777216, 0, Some("udp".to_owned())));
}

#[test]
fn later_filter_replaces_the_earlier_one() {
    let mut c = Config::default();
    c.with_bpf("tcp".to_owned());
    c.with_bpf("udp".to_owned());
    assert_eq!(c.bpf(), &Some("udp".to_owned()));
}
