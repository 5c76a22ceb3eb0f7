//! What the metadata channel reads and sends, told by bytes and tags.
use vstd::prelude::*;

use crate::nbt::{law_put_is_read, lemma_absent, unique, value_of, NbtCompound, NbtValue, Tags};
use crate::servux::{
    advertised, answers_metadata, client_protocol_version, frame, framed, handle_payload,
    length_prefixed, metadata, metadata_of, parse_request, put_spawn_data, sends, signed_seed,
    spawn_data, spawn_data_of, spawn_data_payload, with_spawn_data, Request, ServerInfo,
    ServuxConfig,
};
use crate::wire::{
    big_endian, groups, law_big_endian_round_trips, read_var_int, ungroup, var_int, var_int_len,
    write_i32_be, write_var_int,
};

verus! {

/// The groups of a 32 bit number, written out.
proof fn lemma_group_bytes(bits: nat)
    requires
        bits < 0x1_0000_0000,
    ensures
        groups(bits) == (if bits < 0x80 {
            seq![bits as u8]
        } else if bits < 0x4000 {
            seq![(bits % 128 + 128) as u8, (bits / 0x80) as u8]
        } else if bits < 0x20_0000 {
            seq![
                (bits % 128 + 128) as u8,
                (bits / 0x80 % 128 + 128) as u8,
                (bits / 0x4000) as u8,
            ]
        } else if bits < 0x1000_0000 {
            seq![
                (bits % 128 + 128) as u8,
                (bits / 0x80 % 128 + 128) as u8,
                (bits / 0x4000 % 128 + 128) as u8,
                (bits / 0x20_0000) as u8,
            ]
        } else {
            seq![
                (bits % 128 + 128) as u8,
                (bits / 0x80 % 128 + 128) as u8,
                (bits / 0x4000 % 128 + 128) as u8,
                (bits / 0x20_0000 % 128 + 128) as u8,
                (bits / 0x1000_0000) as u8,
            ]
        }),
{
    let q1 = bits / 128;
    let q2 = q1 / 128;
    let q3 = q2 / 128;
    let q4 = q3 / 128;
    assert(q2 == bits / 0x4000);
    assert(q3 == bits / 0x20_0000);
    assert(q4 == bits / 0x1000_0000);
    if bits >= 0x80 {
        assert(groups(bits) == seq![(bits % 128 + 128) as u8] + groups(q1));
    }
    if bits >= 0x4000 {
        assert(groups(q1) == seq![(q1 % 128 + 128) as u8] + groups(q2));
    }
    if bits >= 0x20_0000 {
        assert(groups(q2) == seq![(q2 % 128 + 128) as u8] + groups(q3));
    }
    if bits >= 0x1000_0000 {
        assert(groups(q3) == seq![(q3 % 128 + 128) as u8] + groups(q4));
        assert(groups(q4) == seq![q4 as u8]);
    } else if bits >= 0x20_0000 {
        assert(groups(q3) == seq![q3 as u8]);
    } else if bits >= 0x4000 {
        assert(groups(q2) == seq![q2 as u8]);
    } else if bits >= 0x80 {
        assert(groups(q1) == seq![q1 as u8]);
    }
}

/// How a variable-length integer is written: the 32 bits of the number in groups of seven, the
/// lowest first and as few as there need be, each in a byte whose high bit tells that more follow.
pub proof fn law_var_ints_in_bytes(out: &mut Vec<u8>, value: i32)
    requires
        call_ensures(write_var_int, (out, value), ()),
    ensures
        ({
            let start = old(out)@.len() as int;
            let bits = if value >= 0 {
                value as int
            } else {
                value + 0x1_0000_0000
            };
            let len: int = if bits < 0x80 {
                1
            } else if bits < 0x4000 {
                2
            } else if bits < 0x20_0000 {
                3
            } else if bits < 0x1000_0000 {
                4
            } else {
                5
            };
            &&& final(out)@.len() == start + len
            &&& final(out)@.take(start) == old(out)@
            &&& final(out)@[start] == bits % 128 + if len > 1 {
                128int
            } else {
                0
            }
            &&& len > 1 ==> final(out)@[start + 1] == bits / 0x80 % 128 + if len > 2 {
                128int
            } else {
                0
            }
            &&& len > 2 ==> final(out)@[start + 2] == bits / 0x4000 % 128 + if len > 3 {
                128int
            } else {
                0
            }
            &&& len > 3 ==> final(out)@[start + 3] == bits / 0x20_0000 % 128 + if len > 4 {
                128int
            } else {
                0
            }
            &&& len > 4 ==> final(out)@[start + 4] == bits / 0x1000_0000
        }),
{
    let bits = if value >= 0 {
        value as nat
    } else {
        (value + 0x1_0000_0000) as nat
    };
    lemma_group_bytes(bits);
    assert(final(out)@ == old(out)@ + groups(bits));
    assert(final(out)@.take(old(out)@.len() as int) =~= old(out)@);
    let start = old(out)@.len() as int;
    assert forall|k: int| 0 <= k < groups(bits).len() implies final(out)@[start + k]
        == #[trigger] groups(bits)[k] by {}
}

/// How a variable-length integer is read: it ends with the first byte whose high bit is clear, is
/// five bytes long at most, and is the number that the other bits of its bytes make up, the lowest
/// first, up to a multiple of 2 to the 32. There is none only if no such byte is among the first
/// five.
pub proof fn law_var_ints_from_bytes(data: &[u8], read: Option<(i32, usize)>)
    requires
        call_ensures(read_var_int, (data,), read),
    ensures
        match read {
            None => forall|k: int| 0 <= k < 5 && k < data@.len() ==> #[trigger] data@[k] >= 128,
            Some((value, len)) => {
                &&& 1 <= len <= 5 && len <= data@.len()
                &&& data@[len - 1] < 128
                &&& forall|k: int| 0 <= k < len - 1 ==> #[trigger] data@[k] >= 128
                &&& ({
                    let b0 = data@[0] as int % 128;
                    let b1: int = if len > 1 {
                        data@[1] as int % 128
                    } else {
                        0
                    };
                    let b2: int = if len > 2 {
                        data@[2] as int % 128
                    } else {
                        0
                    };
                    let b3: int = if len > 3 {
                        data@[3] as int % 128
                    } else {
                        0
                    };
                    let b4: int = if len > 4 {
                        data@[4] as int % 128
                    } else {
                        0
                    };
                    (b0 + b1 * 0x80 + b2 * 0x4000 + b3 * 0x20_0000 + b4 * 0x1000_0000 - value)
                        % 0x1_0000_0000 == 0
                })
            },
        },
{
    reveal_with_fuel(var_int_len, 6);
    reveal_with_fuel(ungroup, 6);
    if let Some((value, len)) = read {
        let bytes = data@.take(len as int);
        assert(forall|k: int| 0 <= k < len ==> #[trigger] bytes[k] == data@[k]);
    }
}

/// A 32 bit number is written as four bytes, the highest first.
pub proof fn law_big_endian_in_bytes(out: &mut Vec<u8>, value: i32)
    requires
        call_ensures(write_i32_be, (out, value), ()),
    ensures
        ({
            let start = old(out)@.len() as int;
            let bits = if value >= 0 {
                value as int
            } else {
                value + 0x1_0000_0000
            };
            let bytes = final(out)@;
            &&& bytes.len() == start + 4
            &&& bytes.take(start) == old(out)@
            &&& bytes[start] * 0x100_0000 + bytes[start + 1] * 0x1_0000 + bytes[start + 2]
                * 0x100 + bytes[start + 3] == bits
        }),
{
    assert(final(out)@.take(old(out)@.len() as int) =~= old(out)@);
}

/// A payload is the packet type as variable-length integer, and then the body.
pub proof fn law_frames_in_bytes(
    packet_type: i32,
    body: &Vec<u8>,
    payload: Vec<u8>,
    prefix: &mut Vec<u8>,
)
    requires
        call_ensures(frame, (packet_type, body), payload),
        call_ensures(write_var_int, (prefix, packet_type), ()),
        old(prefix)@.len() == 0,
    ensures
        payload@ == final(prefix)@ + body@,
        0 <= packet_type < 128 ==> payload@ == seq![packet_type as u8] + body@,
{
    reveal_with_fuel(groups, 2);
    assert(payload@ =~= final(prefix)@ + body@);
}

/// The bytes of a packet with compressed spawn data.
proof fn lemma_spawn_bytes(bytes: Seq<u8>)
    requires
        bytes.len() <= i32::MAX,
    ensures
        ({
            let sent = framed(3, length_prefixed(bytes));
            &&& sent.len() == 5 + bytes.len()
            &&& sent[0] == 3
            &&& sent[1] * 0x100_0000 + sent[2] * 0x1_0000 + sent[3] * 0x100 + sent[4]
                == bytes.len()
            &&& sent.skip(5) == bytes
        }),
{
    let sent = framed(3, length_prefixed(bytes));
    let length = big_endian(bytes.len());
    lemma_group_bytes(3);
    law_big_endian_round_trips(bytes.len());
    assert(var_int(3) == seq![3u8]);
    assert(sent =~= seq![3u8] + length + bytes);
    assert(sent[1] == length[0] && sent[2] == length[1] && sent[3] == length[2] && sent[4]
        == length[3]);
    assert(sent.skip(5) =~= bytes);
}

/// The packet with the spawn data is the byte 3, the number of compressed bytes as four bytes, the
/// highest first, and the compressed bytes. There is none only where compression failed, or gave
/// more bytes than can be told.
pub proof fn law_spawn_data_in_bytes(compressed: &Option<Vec<u8>>, payload: Option<Vec<u8>>)
    requires
        call_ensures(spawn_data_payload, (compressed,), payload),
    ensures
        match (*compressed, payload) {
            (Some(bytes), Some(sent)) => {
                &&& sent@.len() == 5 + bytes@.len()
                &&& sent@[0] == 3
                &&& sent@[1] * 0x100_0000 + sent@[2] * 0x1_0000 + sent@[3] * 0x100 + sent@[4]
                    == bytes@.len()
                &&& sent@.skip(5) == bytes@
            },
            (Some(bytes), None) => bytes@.len() > 0x7fff_ffff,
            (None, _) => payload is None,
        },
{
    if let Some(bytes) = *compressed {
        if bytes@.len() <= i32::MAX {
            lemma_spawn_bytes(bytes@);
        }
    }
}

/// What a payload asks for, by the number at its start: 2 is the handshake, whose body follows the
/// number; 4 is the spawn data; nothing else is answered, and nothing at all while the channel is
/// not enabled.
pub proof fn law_requests_by_number(
    config: &ServuxConfig,
    data: &[u8],
    read: Option<(i32, usize)>,
    request: Request,
)
    requires
        call_ensures(read_var_int, (data,), read),
        call_ensures(parse_request, (config, data), request),
    ensures
        !config.enabled ==> request == Request::Ignored,
        config.enabled ==> match read {
            None => request == Request::Ignored,
            Some((number, len)) => {
                &&& number == 2 ==> request == Request::Metadata(len)
                &&& number == 4 ==> request == Request::SpawnData
                &&& number != 2 && number != 4 ==> request == Request::Ignored
            },
        },
{
}

/// The version that a client advertises is the integer under that name, and -1 without one.
pub proof fn law_versions_by_tag(request: &Option<NbtCompound>, version: i32)
    requires
        call_ensures(client_protocol_version, (request,), version),
    ensures
        version == match *request {
            None => -1,
            Some(nbt) => match value_of(nbt@, "version"@) {
                Some(NbtValue::Int(advertised)) => advertised as int,
                _ => -1,
            },
        },
{
}

/// The names of the tags of the replies, as far as they have to be told apart.
proof fn lemma_reply_names()
    ensures
        "worldSeed"@.len() == 9 && "worldSeed"@[8] == 'd',
        "spawnDimension"@.len() == 14,
        "spawnPosX"@.len() == 9 && "spawnPosX"@[8] == 'X',
        "spawnPosY"@.len() == 9 && "spawnPosY"@[8] == 'Y',
        "spawnPosZ"@.len() == 9 && "spawnPosZ"@[8] == 'Z',
        "name"@.len() == 4,
        "id"@.len() == 2,
        "version"@.len() == 7,
        "servux"@.len() == 6,
{
    reveal_strlit("worldSeed");
    reveal_strlit("spawnDimension");
    reveal_strlit("spawnPosX");
    reveal_strlit("spawnPosY");
    reveal_strlit("spawnPosZ");
    reveal_strlit("name");
    reveal_strlit("id");
    reveal_strlit("version");
    reveal_strlit("servux");
}

/// The tags of the spawn data, all of them and in order: the overworld, the coordinates of the
/// spawn and, if it is shared, the seed.
pub proof fn law_spawn_data_in_tags(server: ServerInfo, share_seed: bool)
    ensures
        ({
            let seed = if server.seed <= 0x7fff_ffff_ffff_ffff {
                server.seed as int
            } else {
                server.seed - 0x1_0000_0000_0000_0000
            };
            spawn_data_of(server, share_seed) == seq![
                ("spawnDimension"@, NbtValue::String(server.overworld@)),
                ("spawnPosX"@, NbtValue::Int(server.spawn_x)),
                ("spawnPosY"@, NbtValue::Int(server.spawn_y)),
                ("spawnPosZ"@, NbtValue::Int(server.spawn_z)),
            ] + (if share_seed {
                seq![("worldSeed"@, NbtValue::Long(seed as i64))]
            } else {
                seq![]
            })
        }),
{
    lemma_reply_names();
    lemma_spawn_tags(Tags::empty(), server, share_seed);
}

/// Writing the spawn data into a compound without such tags adds them at its end.
proof fn lemma_spawn_tags(tags: Tags, server: ServerInfo, share_seed: bool)
    requires
        forall|i: int|
            0 <= i < tags.len() ==> {
                &&& (#[trigger] tags[i]).0 != "spawnDimension"@
                &&& tags[i].0 != "spawnPosX"@
                &&& tags[i].0 != "spawnPosY"@
                &&& tags[i].0 != "spawnPosZ"@
                &&& tags[i].0 != "worldSeed"@
            },
    ensures
        with_spawn_data(tags, server, share_seed) == tags + seq![
            ("spawnDimension"@, NbtValue::String(server.overworld@)),
            ("spawnPosX"@, NbtValue::Int(server.spawn_x)),
            ("spawnPosY"@, NbtValue::Int(server.spawn_y)),
            ("spawnPosZ"@, NbtValue::Int(server.spawn_z)),
        ] + (if share_seed {
            seq![("worldSeed"@, NbtValue::Long(signed_seed(server.seed)))]
        } else {
            seq![]
        }),
{
    lemma_reply_names();
    let v1 = NbtValue::String(server.overworld@);
    let v2 = NbtValue::Int(server.spawn_x);
    let v3 = NbtValue::Int(server.spawn_y);
    let v4 = NbtValue::Int(server.spawn_z);
    let v5 = NbtValue::Long(signed_seed(server.seed));
    let t1 = tags.push(("spawnDimension"@, v1));
    let t2 = t1.push(("spawnPosX"@, v2));
    let t3 = t2.push(("spawnPosY"@, v3));
    let t4 = t3.push(("spawnPosZ"@, v4));
    lemma_absent(tags, "spawnDimension"@, v1);
    lemma_absent(t1, "spawnPosX"@, v2);
    lemma_absent(t2, "spawnPosY"@, v3);
    lemma_absent(t3, "spawnPosZ"@, v4);
    if share_seed {
        lemma_absent(t4, "worldSeed"@, v5);
    }
}

/// The tags of the handshake reply, all of them and in order: what the channel is and speaks, the
/// server, and then the spawn data.
pub proof fn law_metadata_in_tags(server: ServerInfo, share_seed: bool)
    ensures
        metadata_of(server, share_seed) == seq![
            ("name"@, NbtValue::String("hud_data"@)),
            ("id"@, NbtValue::String("servux:hud_metadata"@)),
            ("version"@, NbtValue::Int(3)),
            ("servux"@, NbtValue::String("servux-pumpkin-"@ + server.version@)),
        ] + spawn_data_of(server, share_seed),
{
    lemma_reply_names();
    let v1 = NbtValue::String("hud_data"@);
    let v2 = NbtValue::String("servux:hud_metadata"@);
    let v3 = NbtValue::Int(3);
    let v4 = NbtValue::String("servux-pumpkin-"@ + server.version@);
    let t0 = Tags::empty();
    let t1 = t0.push(("name"@, v1));
    let t2 = t1.push(("id"@, v2));
    let t3 = t2.push(("version"@, v3));
    let t4 = t3.push(("servux"@, v4));
    lemma_absent(t0, "name"@, v1);
    lemma_absent(t1, "id"@, v2);
    lemma_absent(t2, "version"@, v3);
    lemma_absent(t3, "servux"@, v4);
    lemma_spawn_tags(t4, server, share_seed);
    lemma_spawn_tags(t0, server, share_seed);
    assert(metadata_of(server, share_seed) =~= t4 + spawn_data_of(server, share_seed));
}

/// The two replies consist of those tags.
pub proof fn law_replies_in_tags(
    server: &ServerInfo,
    share_seed: bool,
    reply: NbtCompound,
    spawn: NbtCompound,
)
    requires
        call_ensures(metadata, (server, share_seed), reply),
        call_ensures(spawn_data, (server, share_seed), spawn),
    ensures
        reply@ == seq![
            ("name"@, NbtValue::String("hud_data"@)),
            ("id"@, NbtValue::String("servux:hud_metadata"@)),
            ("version"@, NbtValue::Int(3)),
            ("servux"@, NbtValue::String("servux-pumpkin-"@ + server.version@)),
        ] + spawn@,
        spawn@.len() == if share_seed {
            5int
        } else {
            4
        },
        spawn@[0] == ("spawnDimension"@, NbtValue::String(server.overworld@)),
        spawn@[1] == ("spawnPosX"@, NbtValue::Int(server.spawn_x)),
        spawn@[2] == ("spawnPosY"@, NbtValue::Int(server.spawn_y)),
        spawn@[3] == ("spawnPosZ"@, NbtValue::Int(server.spawn_z)),
        share_seed ==> spawn@[4].0 == "worldSeed"@ && (spawn@[4].1 matches NbtValue::Long(seed)
            && seed == (if server.seed <= 0x7fff_ffff_ffff_ffff {
            server.seed as int
        } else {
            server.seed - 0x1_0000_0000_0000_0000
        })),
{
    law_metadata_in_tags(*server, share_seed);
    law_spawn_data_in_tags(*server, share_seed);
}

/// Writing the spawn data into a compound sets its tags; every other tag reads as before, and no
/// name comes to occur twice.
pub proof fn law_spawn_data_is_added(
    server: &ServerInfo,
    nbt: &mut NbtCompound,
    share_seed: bool,
    other: Seq<char>,
)
    requires
        call_ensures(put_spawn_data, (server, nbt, share_seed), ()),
    ensures
        value_of(final(nbt)@, "spawnDimension"@) == Some(NbtValue::String(server.overworld@)),
        value_of(final(nbt)@, "spawnPosX"@) == Some(NbtValue::Int(server.spawn_x)),
        value_of(final(nbt)@, "spawnPosY"@) == Some(NbtValue::Int(server.spawn_y)),
        value_of(final(nbt)@, "spawnPosZ"@) == Some(NbtValue::Int(server.spawn_z)),
        share_seed ==> (value_of(final(nbt)@, "worldSeed"@) matches Some(NbtValue::Long(seed))
            && seed == (if server.seed <= 0x7fff_ffff_ffff_ffff {
            server.seed as int
        } else {
            server.seed - 0x1_0000_0000_0000_0000
        })),
        !share_seed ==> value_of(final(nbt)@, "worldSeed"@) == value_of(old(nbt)@, "worldSeed"@),
        other != "spawnDimension"@ && other != "spawnPosX"@ && other != "spawnPosY"@ && other
            != "spawnPosZ"@ && other != "worldSeed"@ ==> value_of(final(nbt)@, other) == value_of(
            old(nbt)@,
            other,
        ),
        ({
            let before = old(nbt)@;
            let after = final(nbt)@;
            (forall|i: int, j: int|
                0 <= i < j < before.len() ==> (#[trigger] before[i]).0 != (#[trigger] before[j]).0)
                ==> forall|i: int, j: int|
                0 <= i < j < after.len() ==> (#[trigger] after[i]).0 != (#[trigger] after[j]).0
        }),
{
    lemma_reply_names();
    broadcast use law_put_is_read;

}

/// What is answered to a payload, by the number at its start. A handshake whose body advertises
/// version 3 or a newer one is answered with the byte 1 and the metadata as it is written, and any
/// other handshake is not; a request for the spawn data is answered with the byte 3, the length and
/// the compressed spawn data. Nothing else is answered, and nothing while the channel is not
/// enabled.
pub proof fn law_answers_by_number<
    R: FnOnce(&[u8]) -> Option<NbtCompound>,
    W: FnOnce(&NbtCompound) -> Vec<u8>,
    Z: FnOnce(NbtCompound) -> Option<Vec<u8>>,
>(
    config: &ServuxConfig,
    server: &ServerInfo,
    data: &[u8],
    read_nbt: R,
    write_nbt: W,
    compress: Z,
    number: i32,
    len: usize,
    reply: Option<Vec<u8>>,
)
    requires
        call_ensures(read_var_int, (data,), Some((number, len))),
        call_ensures(
            handle_payload::<R, W, Z>,
            (config, server, data, read_nbt, write_nbt, compress),
            reply,
        ),
    ensures
        !config.enabled ==> reply is None,
        number != 2 && number != 4 ==> reply is None,
        config.enabled && number == 2 ==> exists|
            body: &[u8],
            request: Option<NbtCompound>,
        |
            {
                let version: int = match request {
                    None => -1,
                    Some(nbt) => match value_of(nbt@, "version"@) {
                        Some(NbtValue::Int(advertised)) => advertised as int,
                        _ => -1,
                    },
                };
                &&& body@ == data@.skip(len as int)
                &&& #[trigger] call_ensures(read_nbt, (body,), request)
                &&& version < 3 ==> reply is None
                &&& version >= 3 ==> exists|nbt: NbtCompound, written: Vec<u8>|
                    {
                        &&& nbt@ == metadata_of(*server, config.share_seed)
                        &&& #[trigger] call_ensures(write_nbt, (&nbt,), written)
                        &&& reply matches Some(sent) && sent@ == seq![1u8] + written@
                    }
            },
        config.enabled && number == 4 ==> exists|
            nbt: NbtCompound,
            compressed: Option<Vec<u8>>,
        |
            {
                &&& nbt@ == spawn_data_of(*server, config.share_seed)
                &&& #[trigger] call_ensures(compress, (nbt,), compressed)
                &&& match (compressed, reply) {
                    (Some(bytes), Some(sent)) => {
                        &&& sent@.len() == 5 + bytes@.len()
                        &&& sent@[0] == 3
                        &&& sent@[1] * 0x100_0000 + sent@[2] * 0x1_0000 + sent@[3] * 0x100
                            + sent@[4] == bytes@.len()
                        &&& sent@.skip(5) == bytes@
                    },
                    (Some(bytes), None) => bytes@.len() > 0x7fff_ffff,
                    (None, _) => reply is None,
                }
            },
{
    lemma_group_bytes(1);
    if config.enabled && number == 2 {
        assert(answers_metadata(
            *config,
            *server,
            data@.skip(len as int),
            read_nbt,
            write_nbt,
            reply,
        ));
        let (body, request) = choose|body: &[u8], request: Option<NbtCompound>|
            body@ == data@.skip(len as int) && #[trigger] call_ensures(
                read_nbt,
                (body,),
                request,
            ) && if advertised(request) < 3 {
                reply is None
            } else {
                exists|nbt: NbtCompound, written: Vec<u8>|
                    nbt@ == metadata_of(*server, config.share_seed) && unique(nbt@) && #[trigger]
                        call_ensures(write_nbt, (&nbt,), written) && sends(
                        reply,
                        framed(1, written@),
                    )
            };
        if advertised(request) >= 3 {
            let (nbt, written) = choose|nbt: NbtCompound, written: Vec<u8>|
                nbt@ == metadata_of(*server, config.share_seed) && unique(nbt@) && #[trigger]
                    call_ensures(write_nbt, (&nbt,), written) && sends(reply, framed(1, written@));
            assert(reply->0@ =~= seq![1u8] + written@);
        }
    }
    if config.enabled && number == 4 {
        let (nbt, compressed) = choose|nbt: NbtCompound, compressed: Option<Vec<u8>>|
            nbt@ == spawn_data_of(*server, config.share_seed) && unique(nbt@) && #[trigger]
                call_ensures(compress, (nbt,), compressed) && match compressed {
                Some(bytes) if bytes@.len() <= i32::MAX => sends(
                    reply,
                    framed(3, length_prefixed(bytes@)),
                ),
                _ => reply is None,
            };
        if let Some(bytes) = compressed {
            if bytes@.len() <= i32::MAX {
                lemma_spawn_bytes(bytes@);
            }
        }
    }
}

/// A payload that starts with no number is not answered.
pub proof fn law_no_number_no_answer<
    R: FnOnce(&[u8]) -> Option<NbtCompound>,
    W: FnOnce(&NbtCompound) -> Vec<u8>,
    Z: FnOnce(NbtCompound) -> Option<Vec<u8>>,
>(
    config: &ServuxConfig,
    server: &ServerInfo,
    data: &[u8],
    read_nbt: R,
    write_nbt: W,
    compress: Z,
    reply: Option<Vec<u8>>,
)
    requires
        call_ensures(read_var_int, (data,), None),
        call_ensures(
            handle_payload::<R, W, Z>,
            (config, server, data, read_nbt, write_nbt, compress),
            reply,
        ),
    ensures
        reply is None,
{
}

/// A payload can be answered with functions that read and write just what it takes: the body of a
/// handshake is read, the metadata written, and the spawn data compressed.
pub proof fn law_answers_need_the_compounds<
    R: FnOnce(&[u8]) -> Option<NbtCompound>,
    W: FnOnce(&NbtCompound) -> Vec<u8>,
    Z: FnOnce(NbtCompound) -> Option<Vec<u8>>,
>(
    config: &ServuxConfig,
    server: &ServerInfo,
    data: &[u8],
    read_nbt: R,
    write_nbt: W,
    compress: Z,
)
    requires
        forall|body: &[u8]|
            body@.len() < data@.len() ==> #[trigger] call_requires(read_nbt, (body,)),
        forall|nbt: NbtCompound|
            nbt@ == metadata_of(*server, config.share_seed) ==> #[trigger] call_requires(
                write_nbt,
                (&nbt,),
            ),
        forall|nbt: NbtCompound|
            nbt@ == spawn_data_of(*server, config.share_seed) ==> #[trigger] call_requires(
                compress,
                (nbt,),
            ),
    ensures
        call_requires(
            handle_payload::<R, W, Z>,
            (config, server, data, read_nbt, write_nbt, compress),
        ),
{
    reveal_with_fuel(var_int_len, 6);
}

/// A channel is enabled and keeps the seed to itself unless it is configured otherwise.
pub proof fn law_default_configuration(config: ServuxConfig)
    requires
        call_ensures(<ServuxConfig as Default>::default, (), config),
    ensures
        config.enabled,
        !config.share_seed,
{
}

} // verus!
