//! Server side of the Servux `servux:hud_metadata` plugin channel.
//!
//! Malilib-based clients (`MiniHUD`) open this channel to read world data the vanilla protocol
//! never sends: the world spawn point and, when the server allows it, the world seed. Vanilla
//! clients never open the channel, so this is inert for them.
//!
//! A payload is a `VarInt` packet type followed by a body whose encoding depends on the type. The
//! two metadata packets carry plain network NBT; every other packet carries a big-endian `i32`
//! byte length followed by a gzip-compressed NBT compound with an empty root name.
use vstd::prelude::*;
use vstd::slice::slice_subrange;

use crate::nbt::{
    int_in, law_put_is_read, string_in, unique, value_of, with_tag, NbtCompound, NbtValue, Tags,
};
use crate::wire::{
    big_endian, from_big_endian, law_big_endian_round_trips, law_var_int_round_trips,
    leading_var_int, read_var_int, var_int, write_i32_be, write_var_int,
};

verus! {

/// The plugin channel `MiniHUD` opens for server-provided world data.
pub const CHANNEL: &'static str = "servux:hud_metadata";

/// Protocol version this channel speaks. Clients that advertise a lower one are refused.
pub const PROTOCOL_VERSION: i32 = 3;

/// The provider name reported for this channel.
pub const PROVIDER_NAME: &'static str = "hud_data";

/// What the reported server name starts with; the version of the server follows.
pub const SERVER_NAME: &'static str = "servux-pumpkin-";

pub const S2C_METADATA: i32 = 1;

pub const C2S_METADATA_REQUEST: i32 = 2;

pub const S2C_SPAWN_DATA: i32 = 3;

pub const C2S_SPAWN_DATA_REQUEST: i32 = 4;

pub const C2S_UNREGISTER_REPLY: i32 = 9;

/// Configuration of the channel.
#[derive(Debug, Clone, Copy, PartialEq, Eq, Structural)]
pub struct ServuxConfig {
    /// Whether requests on the channel are answered at all.
    pub enabled: bool,
    /// Whether the world seed is sent to clients.
    ///
    /// Off by default: the seed lets clients locate every structure and slime chunk in the world.
    pub share_seed: bool,
}

impl Default for ServuxConfig {
    fn default() -> (config: Self)
        ensures
            config == (ServuxConfig { enabled: true, share_seed: false }),
    {
        ServuxConfig { enabled: true, share_seed: false }
    }
}

/// What the server has to tell: its version, and the spawn and seed of the overworld. The world
/// spawn is a property of the overworld, whichever world the player is in.
#[derive(Debug)]
pub struct ServerInfo {
    pub version: String,
    /// The resource name of the overworld.
    pub overworld: String,
    pub spawn_x: i32,
    pub spawn_y: i32,
    pub spawn_z: i32,
    pub seed: u64,
}

/// The signed number that has the same 64 bits as `seed`.
pub open spec fn signed_seed(seed: u64) -> i64 {
    if seed <= i64::MAX {
        seed as i64
    } else {
        (seed - 0x1_0000_0000_0000_0000) as i64
    }
}

/// The protocol version that a metadata request advertises; `-1` where its body is missing or
/// unreadable, or names none.
pub open spec fn advertised(request: Option<NbtCompound>) -> int {
    match request {
        None => -1,
        Some(nbt) => match int_in(nbt@, "version"@) {
            None => -1,
            Some(version) => version as int,
        },
    }
}

/// A compound after the world spawn was written into it, and the seed when it is shared.
pub open spec fn with_spawn_data(
    compound: Tags,
    server: ServerInfo,
    share_seed: bool,
) -> Tags {
    let compound = with_tag(
        compound,
        "spawnDimension"@,
        NbtValue::String(server.overworld@),
    );
    let compound = with_tag(compound, "spawnPosX"@, NbtValue::Int(server.spawn_x));
    let compound = with_tag(compound, "spawnPosY"@, NbtValue::Int(server.spawn_y));
    let compound = with_tag(compound, "spawnPosZ"@, NbtValue::Int(server.spawn_z));
    if share_seed {
        with_tag(compound, "worldSeed"@, NbtValue::Long(signed_seed(server.seed)))
    } else {
        compound
    }
}

/// The spawn data packet.
pub open spec fn spawn_data_of(server: ServerInfo, share_seed: bool) -> Tags {
    with_spawn_data(Tags::empty(), server, share_seed)
}

/// The handshake reply.
pub open spec fn metadata_of(server: ServerInfo, share_seed: bool) -> Tags {
    let compound = with_tag(Tags::empty(), "name"@, NbtValue::String(PROVIDER_NAME@));
    let compound = with_tag(compound, "id"@, NbtValue::String(CHANNEL@));
    let compound = with_tag(compound, "version"@, NbtValue::Int(PROTOCOL_VERSION));
    let compound = with_tag(
        compound,
        "servux"@,
        NbtValue::String(SERVER_NAME@ + server.version@),
    );
    with_spawn_data(compound, server, share_seed)
}

/// Reads the `version` field from a metadata request body, `request` being the compound that was
/// read from it.
///
/// `-1` when the body is missing or unreadable, so that a malformed request is treated as too
/// old.
pub fn client_protocol_version(request: &Option<NbtCompound>) -> (version: i32)
    ensures
        version == advertised(*request),
{
    match request {
        None => -1,
        Some(nbt) => nbt.get_int("version").unwrap_or(-1),
    }
}

/// Writes the world spawn fields, and the seed when the server shares it.
pub fn put_spawn_data(server: &ServerInfo, nbt: &mut NbtCompound, share_seed: bool)
    ensures
        final(nbt)@ == with_spawn_data(old(nbt)@, *server, share_seed),
        unique(old(nbt)@) ==> unique(final(nbt)@),
{
    nbt.put_string("spawnDimension", server.overworld.clone());
    nbt.put_int("spawnPosX", server.spawn_x);
    nbt.put_int("spawnPosY", server.spawn_y);
    nbt.put_int("spawnPosZ", server.spawn_z);
    if share_seed {
        nbt.put_long("worldSeed", cast_signed(server.seed));
    }
}

/// The signed number that has the same bits.
fn cast_signed(seed: u64) -> (signed: i64)
    ensures
        signed == signed_seed(seed),
{
    if seed <= 0x7fff_ffff_ffff_ffff {
        seed as i64
    } else {
        -((0xffff_ffff_ffff_ffff - seed) as i64) - 1
    }
}

/// The contents of the handshake reply that registers a client.
pub fn metadata(server: &ServerInfo, share_seed: bool) -> (nbt: NbtCompound)
    ensures
        nbt@ == metadata_of(*server, share_seed),
        unique(nbt@),
{
    let mut nbt = NbtCompound::new();
    nbt.put_string("name", PROVIDER_NAME.to_owned());
    nbt.put_string("id", CHANNEL.to_owned());
    nbt.put_int("version", PROTOCOL_VERSION);
    nbt.put_string("servux", SERVER_NAME.to_owned().concat(server.version.as_str()));
    put_spawn_data(server, &mut nbt, share_seed);
    nbt
}

/// The contents of the spawn data packet.
pub fn spawn_data(server: &ServerInfo, share_seed: bool) -> (nbt: NbtCompound)
    ensures
        nbt@ == spawn_data_of(*server, share_seed),
        unique(nbt@),
{
    let mut nbt = NbtCompound::new();
    put_spawn_data(server, &mut nbt, share_seed);
    nbt
}

/// A payload: the packet type and the body.
pub open spec fn framed(packet_type: i32, body: Seq<u8>) -> Seq<u8> {
    var_int(packet_type) + body
}

/// A compressed body behind its length.
pub open spec fn length_prefixed(compressed: Seq<u8>) -> Seq<u8> {
    big_endian(compressed.len()) + compressed
}

/// `reply` is a payload, and consists of `bytes`.
pub open spec fn sends(reply: Option<Vec<u8>>, bytes: Seq<u8>) -> bool {
    reply matches Some(payload) && payload@ == bytes
}

/// Prefixes `body` with its packet type.
pub fn frame(packet_type: i32, body: &Vec<u8>) -> (payload: Vec<u8>)
    ensures
        payload@ == framed(packet_type, body@),
{
    let mut payload: Vec<u8> = Vec::new();
    write_var_int(&mut payload, packet_type);
    payload.extend_from_slice(body.as_slice());
    assert(payload@ =~= framed(packet_type, body@));
    payload
}

/// The payload of the spawn data packet, `compressed` being what compression of its contents
/// gave. There is none where compression failed or its result is too long for the length prefix.
pub fn spawn_data_payload(compressed: &Option<Vec<u8>>) -> (payload: Option<Vec<u8>>)
    ensures
        match *compressed {
            Some(bytes) if bytes@.len() <= i32::MAX => sends(
                payload,
                framed(S2C_SPAWN_DATA, length_prefixed(bytes@)),
            ),
            _ => payload is None,
        },
{
    let compressed = match compressed {
        None => return None,
        Some(compressed) => compressed,
    };
    if compressed.len() > 0x7fff_ffff {
        return None;
    }
    let length: i32 = compressed.len() as i32;
    let mut body: Vec<u8> = Vec::new();
    write_i32_be(&mut body, length);
    body.extend_from_slice(compressed.as_slice());
    assert(body@ =~= length_prefixed(compressed@));
    Some(frame(S2C_SPAWN_DATA, &body))
}

/// What a payload asks for.
#[derive(Debug, Clone, Copy, PartialEq, Eq, Structural)]
pub enum Request {
    /// Nothing that is answered.
    Ignored,
    /// The handshake; the body starts at this offset.
    Metadata(usize),
    /// The spawn data.
    SpawnData,
}

/// What the payload `data` asks for. A channel that is not enabled is asked for nothing, nor does
/// a payload ask for anything that has no packet type or one that is not a request.
pub open spec fn request_of(config: ServuxConfig, data: Seq<u8>) -> Request {
    match leading_var_int(data) {
        Some((packet_type, len)) if config.enabled => if packet_type == C2S_METADATA_REQUEST {
            Request::Metadata(len as usize)
        } else if packet_type == C2S_SPAWN_DATA_REQUEST {
            Request::SpawnData
        } else {
            Request::Ignored
        },
        _ => Request::Ignored,
    }
}

/// Reads what a payload asks for.
pub fn parse_request(config: &ServuxConfig, data: &[u8]) -> (request: Request)
    ensures
        request == request_of(*config, data@),
        request matches Request::Metadata(start) ==> start <= data@.len(),
{
    if !config.enabled {
        return Request::Ignored;
    }
    let (packet_type, len) = match read_var_int(data) {
        None => return Request::Ignored,
        Some(read) => read,
    };
    match packet_type {
        C2S_METADATA_REQUEST => Request::Metadata(len),
        C2S_SPAWN_DATA_REQUEST => Request::SpawnData,
        // Nothing to drop: replies are computed per request, not pushed.
        C2S_UNREGISTER_REPLY => Request::Ignored,
        _ => Request::Ignored,
    }
}

/// `read_nbt` can read the body of a handshake, and `write_nbt` can write the reply where the
/// handshake is one that is answered.
pub open spec fn reads_metadata<
    R: FnOnce(&[u8]) -> Option<NbtCompound>,
    W: FnOnce(&NbtCompound) -> Vec<u8>,
>(config: ServuxConfig, server: ServerInfo, body: Seq<u8>, read_nbt: R, write_nbt: W) -> bool {
    &&& forall|bytes: &[u8]| bytes@ == body ==> #[trigger] call_requires(read_nbt, (bytes,))
    &&& forall|bytes: &[u8], request: Option<NbtCompound>, nbt: NbtCompound|
        bytes@ == body && #[trigger] call_ensures(read_nbt, (bytes,), request) && advertised(
            request,
        ) >= PROTOCOL_VERSION && nbt@ == metadata_of(server, config.share_seed)
            ==> #[trigger] call_requires(write_nbt, (&nbt,))
}

/// `reply` answers a handshake whose body is `body`. `read_nbt` and `write_nbt` read and write
/// compounds in network form.
pub open spec fn answers_metadata<
    R: FnOnce(&[u8]) -> Option<NbtCompound>,
    W: FnOnce(&NbtCompound) -> Vec<u8>,
>(
    config: ServuxConfig,
    server: ServerInfo,
    body: Seq<u8>,
    read_nbt: R,
    write_nbt: W,
    reply: Option<Vec<u8>>,
) -> bool {
    exists|bytes: &[u8], request: Option<NbtCompound>|
        bytes@ == body && #[trigger] call_ensures(read_nbt, (bytes,), request) && if advertised(
            request,
        ) < PROTOCOL_VERSION {
            reply is None
        } else {
            exists|nbt: NbtCompound, written: Vec<u8>|
                nbt@ == metadata_of(server, config.share_seed) && unique(nbt@) && #[trigger]
                    call_ensures(
                    write_nbt,
                    (&nbt,),
                    written,
                ) && sends(reply, framed(S2C_METADATA, written@))
        }
}

/// `reply` answers a request for the spawn data. `compress` writes a compound in compressed form.
pub open spec fn answers_spawn_data<Z: FnOnce(NbtCompound) -> Option<Vec<u8>>>(
    config: ServuxConfig,
    server: ServerInfo,
    compress: Z,
    reply: Option<Vec<u8>>,
) -> bool {
    exists|nbt: NbtCompound, compressed: Option<Vec<u8>>|
        nbt@ == spawn_data_of(server, config.share_seed) && unique(nbt@) && #[trigger]
            call_ensures(
            compress,
            (nbt,),
            compressed,
        ) && match compressed {
            Some(bytes) if bytes@.len() <= i32::MAX => sends(
                reply,
                framed(S2C_SPAWN_DATA, length_prefixed(bytes@)),
            ),
            _ => reply is None,
        }
}

/// Handles one payload received on [`CHANNEL`]; the reply, if any, is to be sent on it.
///
/// `read_nbt` and `write_nbt` read and write compounds in network form, `compress` writes them in
/// compressed form.
pub fn handle_payload<
    R: FnOnce(&[u8]) -> Option<NbtCompound>,
    W: FnOnce(&NbtCompound) -> Vec<u8>,
    Z: FnOnce(NbtCompound) -> Option<Vec<u8>>,
>(
    config: &ServuxConfig,
    server: &ServerInfo,
    data: &[u8],
    read_nbt: R,
    write_nbt: W,
    compress: Z,
) -> (reply: Option<Vec<u8>>)
    requires
        request_of(*config, data@) matches Request::Metadata(start) ==> reads_metadata(
            *config,
            *server,
            data@.skip(start as int),
            read_nbt,
            write_nbt,
        ),
        request_of(*config, data@) == Request::SpawnData ==> forall|nbt: NbtCompound|
            nbt@ == spawn_data_of(*server, config.share_seed) ==> #[trigger] call_requires(
                compress,
                (nbt,),
            ),
    ensures
        match request_of(*config, data@) {
            Request::Ignored => reply is None,
            Request::Metadata(start) => answers_metadata(
                *config,
                *server,
                data@.skip(start as int),
                read_nbt,
                write_nbt,
                reply,
            ),
            Request::SpawnData => answers_spawn_data(*config, *server, compress, reply),
        },
{
    match parse_request(config, data) {
        Request::Ignored => None,
        Request::Metadata(start) => {
            let body = slice_subrange(data, start, data.len());
            assert(body@ =~= data@.skip(start as int));
            let request = read_nbt(body);
            assert(call_ensures(read_nbt, (body,), request));
            if client_protocol_version(&request) < PROTOCOL_VERSION {
                return None;
            }
            let nbt = metadata(server, config.share_seed);
            let written = write_nbt(&nbt);
            assert(call_ensures(write_nbt, (&nbt,), written));
            Some(frame(S2C_METADATA, &written))
        },
        Request::SpawnData => {
            let nbt = spawn_data(server, config.share_seed);
            let compressed = compress(nbt);
            assert(call_ensures(compress, (nbt,), compressed));
            spawn_data_payload(&compressed)
        },
    }
}

/// A channel that is not enabled answers nothing, whatever it receives.
pub proof fn law_disabled_is_silent(config: ServuxConfig, data: Seq<u8>)
    requires
        !config.enabled,
    ensures
        request_of(config, data) == Request::Ignored,
{
}

/// The packet type and the body of a payload can be told from its bytes.
pub proof fn law_frames_round_trip(packet_type: i32, body: Seq<u8>)
    ensures
        leading_var_int(framed(packet_type, body)) matches Some((read, len)) && read == packet_type
            && framed(packet_type, body).skip(len as int) == body,
{
    law_var_int_round_trips(packet_type, body);
}

/// A compressed body can be told by the length that precedes it.
pub proof fn law_length_prefix_round_trips(compressed: Seq<u8>)
    requires
        compressed.len() <= i32::MAX,
    ensures
        from_big_endian(length_prefixed(compressed).take(4)) == compressed.len(),
        length_prefixed(compressed).skip(4) == compressed,
{
    law_big_endian_round_trips(compressed.len());
    assert(length_prefixed(compressed).take(4) =~= big_endian(compressed.len()));
    assert(length_prefixed(compressed).skip(4) =~= compressed);
}

/// A payload that is framed as a request asks for just that, and its body follows.
pub proof fn law_requests_are_understood(config: ServuxConfig, packet_type: i32, body: Seq<u8>)
    requires
        config.enabled,
    ensures
        packet_type == C2S_SPAWN_DATA_REQUEST ==> request_of(config, framed(packet_type, body))
            == Request::SpawnData,
        packet_type == C2S_METADATA_REQUEST ==> (request_of(
            config,
            framed(packet_type, body),
        ) matches Request::Metadata(start) && framed(packet_type, body).skip(start as int) == body),
        packet_type != C2S_SPAWN_DATA_REQUEST && packet_type != C2S_METADATA_REQUEST ==> request_of(
            config,
            framed(packet_type, body),
        ) == Request::Ignored,
{
    law_var_int_round_trips(packet_type, body);
}

/// A client whose request is unreadable, or names no version, is refused like one that is too old.
pub proof fn law_malformed_is_too_old(request: Option<NbtCompound>)
    requires
        request matches Some(nbt) ==> int_in(nbt@, "version"@) is None,
    ensures
        advertised(request) < PROTOCOL_VERSION,
{
}

/// A client whose handshake, however it is read, advertises too old a protocol is not answered.
pub proof fn law_old_clients_are_refused<
    R: FnOnce(&[u8]) -> Option<NbtCompound>,
    W: FnOnce(&NbtCompound) -> Vec<u8>,
>(
    config: ServuxConfig,
    server: ServerInfo,
    body: Seq<u8>,
    read_nbt: R,
    write_nbt: W,
    reply: Option<Vec<u8>>,
)
    requires
        answers_metadata(config, server, body, read_nbt, write_nbt, reply),
        forall|bytes: &[u8], request: Option<NbtCompound>|
            bytes@ == body && #[trigger] call_ensures(read_nbt, (bytes,), request) ==> advertised(
                request,
            ) < PROTOCOL_VERSION,
    ensures
        reply is None,
{
}

/// A client whose handshake advertises the protocol of the channel, or a newer one, is answered
/// with a metadata packet.
pub proof fn law_current_clients_are_answered<
    R: FnOnce(&[u8]) -> Option<NbtCompound>,
    W: FnOnce(&NbtCompound) -> Vec<u8>,
>(
    config: ServuxConfig,
    server: ServerInfo,
    body: Seq<u8>,
    read_nbt: R,
    write_nbt: W,
    reply: Option<Vec<u8>>,
)
    requires
        answers_metadata(config, server, body, read_nbt, write_nbt, reply),
        forall|bytes: &[u8], request: Option<NbtCompound>|
            bytes@ == body && #[trigger] call_ensures(read_nbt, (bytes,), request) ==> advertised(
                request,
            ) >= PROTOCOL_VERSION,
    ensures
        reply matches Some(payload) && leading_var_int(payload@) == Some(
            (S2C_METADATA, var_int(S2C_METADATA).len()),
        ),
{
    let (nbt, written) = choose|nbt: NbtCompound, written: Vec<u8>|
        nbt@ == metadata_of(server, config.share_seed) && unique(nbt@) && #[trigger]
            call_ensures(
            write_nbt,
            (&nbt,),
            written,
        ) && sends(reply, framed(S2C_METADATA, written@));
    law_var_int_round_trips(S2C_METADATA, written@);
}

/// The seed is in a reply if and only if the server shares it.
pub proof fn law_seed_is_sent_if_shared(server: ServerInfo, share_seed: bool)
    ensures
        value_of(spawn_data_of(server, share_seed), "worldSeed"@) == (if share_seed {
            Some(NbtValue::Long(signed_seed(server.seed)))
        } else {
            None
        }),
        value_of(metadata_of(server, share_seed), "worldSeed"@) == (if share_seed {
            Some(NbtValue::Long(signed_seed(server.seed)))
        } else {
            None
        }),
{
    lemma_names();
    broadcast use law_put_is_read;

}

/// A reply does not tell an unshared seed: servers that differ only in their seed send the same
/// tags, in the same order.
pub proof fn law_unshared_seed_is_not_told(server: ServerInfo, other: ServerInfo)
    requires
        server == (ServerInfo { seed: server.seed, ..other }),
    ensures
        spawn_data_of(server, false) == spawn_data_of(other, false),
        metadata_of(server, false) == metadata_of(other, false),
{
}

/// Both replies tell where the world spawn is.
pub proof fn law_spawn_is_sent(server: ServerInfo, share_seed: bool, reply: Tags)
    requires
        reply == spawn_data_of(server, share_seed) || reply == metadata_of(server, share_seed),
    ensures
        string_in(reply, "spawnDimension"@) == Some(server.overworld@),
        int_in(reply, "spawnPosX"@) == Some(server.spawn_x),
        int_in(reply, "spawnPosY"@) == Some(server.spawn_y),
        int_in(reply, "spawnPosZ"@) == Some(server.spawn_z),
{
    lemma_names();
    broadcast use law_put_is_read;

}

/// The names of the tags of the two replies, as far as they have to be told apart.
proof fn lemma_names()
    ensures
        "worldSeed"@.len() == 9 && "worldSeed"@[8] == 'd',
        "spawnDimension"@.len() == 14,
        "spawnPosX"@.len() == 9 && "spawnPosX"@[8] == 'X',
        "spawnPosY"@.len() == 9 && "spawnPosY"@[8] == 'Y',
        "spawnPosZ"@.len() == 9 && "spawnPosZ"@[8] == 'Z',
        "name"@.len() == 4,
        "id"@.len() == 2,
        "version"@.len() == 7,
        "servux"@.len() == 6,
{
    reveal_strlit("worldSeed");
    reveal_strlit("spawnDimension");
    reveal_strlit("spawnPosX");
    reveal_strlit("spawnPosY");
    reveal_strlit("spawnPosZ");
    reveal_strlit("name");
    reveal_strlit("id");
    reveal_strlit("version");
    reveal_strlit("servux");
}

} // verus!
