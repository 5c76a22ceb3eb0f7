use pumpkin::nbt::{NbtCompound, NbtTag};
use pumpkin::servux::{
    client_protocol_version, frame, handle_payload, metadata, parse_request, spawn_data,
    spawn_data_payload, Request, ServerInfo, ServuxConfig, CHANNEL,
};
use pumpkin::wire::{read_var_int, write_i32_be, write_var_int};

const SHARING: ServuxConfig = ServuxConfig { enabled: true, share_seed: true };

const PRIVATE: ServuxConfig = ServuxConfig { enabled: true, share_seed: false };

const DISABLED: ServuxConfig = ServuxConfig { enabled: false, share_seed: true };

fn server() -> ServerInfo {
    ServerInfo {
        version: "1.2.3".to_string(),
        overworld: "minecraft:overworld".to_string(),
        spawn_x: 12,
        spawn_y: 70,
        spawn_z: -5,
        seed: u64::MAX,
    }
}

fn request(version: i32) -> NbtCompound {
    let mut nbt = NbtCompound::new();
    nbt.put_int("version", version);
    nbt
}

fn long(nbt: &NbtCompound, name: &str) -> Option<i64> {
    match nbt.get(name) {
        Some(NbtTag::Long(value)) => Some(*value),
        _ => None,
    }
}

#[test]
fn config_defaults() {
    assert_eq!(
        ServuxConfig::default(),
        ServuxConfig { enabled: true, share_seed: false }
    );
}

#[test]
fn var_ints_are_written() {
    let cases: [(i32, &[u8]); 8] = [
        (0, &[0]),
        (1, &[1]),
        (127, &[0x7f]),
        (128, &[0x80, 0x01]),
        (300, &[0xac, 0x02]),
        (25_565, &[0xdd, 0xc7, 0x01]),
        (i32::MAX, &[0xff, 0xff, 0xff, 0xff, 0x07]),
        (-1, &[0xff, 0xff, 0xff, 0xff, 0x0f]),
    ];
    for (value, bytes) in cases {
        let mut out = vec![0xee];
        write_var_int(&mut out, value);
        assert_eq!(out[0], 0xee);
        assert_eq!(&out[1..], bytes);
        let mut data = bytes.to_vec();
        data.push(0x55);
        assert_eq!(read_var_int(&data), Some((value, bytes.len())));
    }
}

#[test]
fn smallest_var_int() {
    let mut out = Vec::new();
    write_var_int(&mut out, i32::MIN);
    assert_eq!(out, vec![0x80, 0x80, 0x80, 0x80, 0x08]);
    assert_eq!(read_var_int(&out), Some((i32::MIN, 5)));
}

#[test]
fn broken_var_ints_are_refused() {
    assert_eq!(read_var_int(&[]), None);
    assert_eq!(read_var_int(&[0x80]), None);
    assert_eq!(read_var_int(&[0x80, 0x80, 0x80, 0x80]), None);
    assert_eq!(read_var_int(&[0x80, 0x80, 0x80, 0x80, 0x80, 0x00]), None);
}

#[test]
fn bits_beyond_thirty_two_are_dropped() {
    assert_eq!(read_var_int(&[0xff, 0xff, 0xff, 0xff, 0x7f]), Some((-1, 5)));
    assert_eq!(read_var_int(&[0x82, 0x80, 0x80, 0x80, 0x70]), Some((2, 5)));
    assert_eq!(read_var_int(&[0x82, 0x00]), Some((2, 2)));
}

#[test]
fn big_endian_integers() {
    let mut out = Vec::new();
    write_i32_be(&mut out, 0x0102_0304);
    write_i32_be(&mut out, -2);
    assert_eq!(out, vec![1, 2, 3, 4, 0xff, 0xff, 0xff, 0xfe]);
}

#[test]
fn frames_carry_type_and_body() {
    assert_eq!(frame(3, &vec![7, 8]), vec![3, 7, 8]);
    assert_eq!(frame(200, &vec![]), vec![0xc8, 0x01]);
    for packet_type in [0, 1, 127, 128, -1, i32::MAX] {
        let payload = frame(packet_type, &vec![9, 9, 9]);
        let (read, len) = read_var_int(&payload).unwrap();
        assert_eq!(read, packet_type);
        assert_eq!(payload[len..], [9, 9, 9]);
    }
}

#[test]
fn requests_are_parsed() {
    assert_eq!(parse_request(&PRIVATE, &[2, 10, 0]), Request::Metadata(1));
    assert_eq!(parse_request(&PRIVATE, &[0x82, 0x00, 10]), Request::Metadata(2));
    assert_eq!(parse_request(&PRIVATE, &[4]), Request::SpawnData);
    assert_eq!(parse_request(&PRIVATE, &[9]), Request::Ignored);
    assert_eq!(parse_request(&PRIVATE, &[1]), Request::Ignored);
    assert_eq!(parse_request(&PRIVATE, &[]), Request::Ignored);
    assert_eq!(parse_request(&DISABLED, &[2]), Request::Ignored);
    assert_eq!(parse_request(&DISABLED, &[4]), Request::Ignored);
}

#[test]
fn versions_of_clients() {
    assert_eq!(client_protocol_version(&Some(request(3))), 3);
    assert_eq!(client_protocol_version(&Some(NbtCompound::new())), -1);
    assert_eq!(client_protocol_version(&None), -1);
    let mut wrong = NbtCompound::new();
    wrong.put_string("version", "3".to_string());
    assert_eq!(client_protocol_version(&Some(wrong)), -1);
}

#[test]
fn metadata_of_a_server() {
    let nbt = metadata(&server(), true);
    assert_eq!(nbt.get_string("name").unwrap(), "hud_data");
    assert_eq!(nbt.get_string("id").unwrap(), "servux:hud_metadata");
    assert_eq!(nbt.get_int("version"), Some(3));
    assert_eq!(nbt.get_string("servux").unwrap(), "servux-pumpkin-1.2.3");
    assert_eq!(nbt.get_string("spawnDimension").unwrap(), "minecraft:overworld");
    assert_eq!(nbt.get_int("spawnPosX"), Some(12));
    assert_eq!(nbt.get_int("spawnPosY"), Some(70));
    assert_eq!(nbt.get_int("spawnPosZ"), Some(-5));
    assert_eq!(long(&nbt, "worldSeed"), Some(-1));
    assert_eq!(CHANNEL, "servux:hud_metadata");
}

#[test]
fn seed_is_kept_private() {
    assert!(metadata(&server(), false).get("worldSeed").is_none());
    assert!(spawn_data(&server(), false).get("worldSeed").is_none());
    assert_eq!(spawn_data(&server(), false).get_int("spawnPosX"), Some(12));
    assert!(spawn_data(&server(), true).get("name").is_none());
}

#[test]
fn seeds_keep_their_bits() {
    for (seed, signed) in [
        (0, 0),
        (42, 42),
        (i64::MAX as u64, i64::MAX),
        (1 << 63, i64::MIN),
        (u64::MAX - 1, -2),
    ] {
        let nbt = spawn_data(&ServerInfo { seed, ..server() }, true);
        assert_eq!(long(&nbt, "worldSeed"), Some(signed));
    }
}

#[test]
fn spawn_data_is_length_prefixed() {
    assert_eq!(
        spawn_data_payload(&Some(vec![5; 300])).unwrap()[..6],
        [3, 0, 0, 1, 44, 5]
    );
    assert_eq!(spawn_data_payload(&Some(vec![])), Some(vec![3, 0, 0, 0, 0]));
    assert_eq!(spawn_data_payload(&None), None);
}

fn no_read(_: &[u8]) -> Option<NbtCompound> {
    panic!("read")
}

fn no_write(_: &NbtCompound) -> Vec<u8> {
    panic!("written")
}

fn no_compress(_: NbtCompound) -> Option<Vec<u8>> {
    panic!("compressed")
}

#[test]
fn handshake_is_answered() {
    let mut read = Vec::new();
    let mut seed = None;
    let reply = handle_payload(
        &SHARING,
        &server(),
        &[2, 10, 20, 30],
        |body: &[u8]| {
            read = body.to_vec();
            Some(request(3))
        },
        |nbt: &NbtCompound| {
            seed = long(nbt, "worldSeed");
            vec![0xaa, 0xbb]
        },
        no_compress,
    );
    assert_eq!(reply, Some(vec![1, 0xaa, 0xbb]));
    assert_eq!(read, vec![10, 20, 30]);
    assert_eq!(seed, Some(-1));
}

#[test]
fn newer_clients_are_answered() {
    let reply = handle_payload(
        &PRIVATE,
        &server(),
        &[2],
        |_: &[u8]| Some(request(4)),
        |_: &NbtCompound| vec![],
        no_compress,
    );
    assert_eq!(reply, Some(vec![1]));
}

#[test]
fn old_and_malformed_clients_are_refused() {
    for answer in [Some(2), Some(-1), None] {
        let reply = handle_payload(
            &PRIVATE,
            &server(),
            &[2, 10],
            |_: &[u8]| answer.map(request),
            no_write,
            no_compress,
        );
        assert_eq!(reply, None);
    }
}

#[test]
fn spawn_data_is_answered() {
    let mut spawn = None;
    let reply = handle_payload(
        &PRIVATE,
        &server(),
        &[4],
        no_read,
        no_write,
        |nbt: NbtCompound| {
            spawn = nbt.get_int("spawnPosZ");
            Some(vec![0xcc])
        },
    );
    assert_eq!(reply, Some(vec![3, 0, 0, 0, 1, 0xcc]));
    assert_eq!(spawn, Some(-5));
}

#[test]
fn failed_compression_is_not_answered() {
    let reply =
        handle_payload(&PRIVATE, &server(), &[4], no_read, no_write, |_: NbtCompound| None);
    assert_eq!(reply, None);
}

#[test]
fn other_payloads_are_ignored() {
    for data in [&[9u8][..], &[0][..], &[1][..], &[3][..], &[][..], &[0xff][..]] {
        let reply = handle_payload(&SHARING, &server(), data, no_read, no_write, no_compress);
        assert_eq!(reply, None);
    }
}

#[test]
fn disabled_channel_is_silent() {
    for data in [&[2u8, 10][..], &[4][..]] {
        let reply = handle_payload(&DISABLED, &server(), data, no_read, no_write, no_compress);
        assert_eq!(reply, None);
    }
}

#[test]
fn compounds_keep_the_last_value_put() {
    let mut nbt = NbtCompound::new();
    assert!(nbt.get("a").is_none());
    nbt.put_int("a", 1);
    nbt.put_int("b", 2);
    nbt.put_int("a", 3);
    assert_eq!(nbt.get_int("a"), Some(3));
    assert_eq!(nbt.get_int("b"), Some(2));
    nbt.put_long("b", 4);
    assert_eq!(nbt.get_int("b"), None);
    assert_eq!(long(&nbt, "b"), Some(4));
    assert!(nbt.get_string("b").is_none());
}

fn names(nbt: &NbtCompound) -> Vec<&str> {
    nbt.child_tags.iter().map(|(name, _)| name.as_str()).collect()
}

#[test]
fn replies_hold_each_tag_once() {
    let spawn = ["spawnDimension", "spawnPosX", "spawnPosY", "spawnPosZ"];
    assert_eq!(names(&spawn_data(&server(), false)), spawn);
    assert_eq!(
        names(&spawn_data(&server(), true)),
        [&spawn[..], &["worldSeed"]].concat()
    );
    let head = ["name", "id", "version", "servux"];
    assert_eq!(names(&metadata(&server(), false)), [&head[..], &spawn].concat());
    assert_eq!(
        names(&metadata(&server(), true)),
        [&head[..], &spawn, &["worldSeed"]].concat()
    );
}

#[test]
fn unshared_seed_is_not_told() {
    let told = |seed, share| {
        let info = ServerInfo { seed, ..server() };
        format!("{:?} {:?}", spawn_data(&info, share), metadata(&info, share))
    };
    assert_eq!(told(1, false), told(2, false));
    assert_ne!(told(1, true), told(2, true));
}

#[test]
fn putting_a_name_again_adds_no_tag() {
    let mut nbt = NbtCompound::new();
    nbt.put_int("a", 1);
    nbt.put_int("b", 2);
    nbt.put_string("a", "x".to_string());
    assert_eq!(names(&nbt), ["a", "b"]);
    assert_eq!(nbt.get_string("a").unwrap(), "x");
}
