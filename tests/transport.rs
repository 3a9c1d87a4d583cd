use howler::config::{Client, ClientAddress, SocketConfig, SocketConfigRaw};
use howler::err::{ErrorKind, NetError, StreamError};
use howler::frame::{frame_accept, frame_chunks, frame_recv, msg_end_tag_bytes, PACKET_BUF_SIZE};
use howler::punch::{classify, drain_step, stage_message, DrainAction, PunchAction, PunchState, Stage};
use howler::rng::{AppRngCore, AppRngSeed};
use howler::stun::{build_request, decode_address, pick_address, StunAction, StunReply, StunState};
use stun_codec::rfc5389::attributes::{MappedAddress, XorMappedAddress};
use stun_codec::rfc5389::{methods::BINDING, Attribute};
use stun_codec::{Message, MessageClass, MessageEncoder, MessageDecoder, TransactionId};
use bytecodec::{DecodeExt, EncodeExt};

fn refragment(chunks: &[Vec<u8>], size: usize) -> Vec<Vec<u8>> {
    let all: Vec<u8> = chunks.concat();
    all.chunks(size).map(|c| c.to_vec()).collect()
}

#[test]
fn framing_round_trip_sizes() {
    for n in [0usize, 1, 255, 256, 257, 10_000] {
        let p: Vec<u8> = (0..n).map(|i| (i % 200) as u8 + 1).collect();
        let chunks = frame_chunks(&p);
        let total: usize = chunks.iter().map(|c| c.len()).sum();
        assert_eq!(total, n + 8);
        assert_eq!(chunks.len(), (n + 8 + PACKET_BUF_SIZE - 1) / PACKET_BUF_SIZE);
        for c in &chunks[..chunks.len() - 1] {
            assert_eq!(c.len(), PACKET_BUF_SIZE);
        }
        assert!(chunks.concat().ends_with(&msg_end_tag_bytes()));
        assert!(!chunks.last().unwrap().is_empty());
        assert_eq!(frame_recv(&chunks).unwrap(), p);
        for size in [1usize, 3, 7, 8, 100, 256] {
            assert_eq!(frame_recv(&refragment(&chunks, size)).unwrap(), p);
        }
    }
}

#[test]
fn framing_large_payload() {
    let p = vec![0x41u8; 10_000];
    let got = frame_recv(&frame_chunks(&p)).unwrap();
    assert_eq!(got.len(), 10_000);
    assert!(got.iter().all(|b| *b == 0x41));
}

#[test]
fn framing_full_last_datagram() {
    let p = vec![7u8; 248];
    let chunks = frame_chunks(&p);
    assert_eq!(chunks.len(), 1);
    assert_eq!(chunks[0].len(), 256);
    assert_eq!(&chunks[0][248..], b"end\0msg\0");
}

#[test]
fn framing_accumulator() {
    let mut acc = Vec::new();
    assert_eq!(frame_accept(&mut acc, b"hel"), None);
    assert_eq!(frame_accept(&mut acc, b"lo"), None);
    assert_eq!(acc, b"hello");
    assert_eq!(frame_accept(&mut acc, b"end\0msg\0"), Some(b"hello".to_vec()));
    assert!(acc.is_empty());
    assert_eq!(frame_accept(&mut acc, b"end\0msg\0"), Some(vec![]));
    assert_eq!(frame_recv(&vec![b"abc".to_vec()]), None);
}

#[test]
fn seed_of_passphrase_is_sha256() {
    let empty = AppRngSeed::from_phrase("");
    assert_eq!(
        empty.0,
        [
            0xe3, 0xb0, 0xc4, 0x42, 0x98, 0xfc, 0x1c, 0x14, 0x9a, 0xfb, 0xf4, 0xc8, 0x99, 0x6f, 0xb9, 0x24,
            0x27, 0xae, 0x41, 0xe4, 0x64, 0x9b, 0x93, 0x4c, 0xa4, 0x95, 0x99, 0x1b, 0x78, 0x52, 0xb8, 0x55
        ]
    );
    let abc = AppRngSeed::from_phrase("abc");
    assert_eq!(&abc.0[..4], &[0xba, 0x78, 0x16, 0xbf]);
}

#[test]
fn generated_block_words() {
    let mut seed = [0u8; 32];
    for (i, b) in seed.iter_mut().enumerate() {
        *b = i as u8;
    }
    let mut core = AppRngCore::from_seed(AppRngSeed(seed));
    let mut w = [0u32; 16];
    core.generate(&mut w);
    assert_eq!(w[0], 33555201);
    assert_eq!(w[1], 168299273);
    assert_eq!(w[4], w[0]);
    assert_eq!(core.fill_bytes(8), vec![1, 3, 0, 2, 9, 11, 8, 10]);
    let mut again = AppRngCore::from_seed(AppRngSeed(seed));
    let mut w2 = [0u32; 16];
    again.generate(&mut w2);
    assert_eq!(w, w2);
    let mut zero = AppRngCore::from_seed(AppRngSeed::default());
    zero.generate(&mut w2);
    assert_eq!(w2, [0u32; 16]);
}

#[test]
fn stage_messages() {
    assert_eq!(stage_message(Stage::A), b"a\0p2p\0req\0");
    assert_eq!(stage_message(Stage::C), b"c\0p2p\0req\0");
    assert_eq!(classify(b"b\0p2p\0req\0"), Some(Stage::B));
    assert_eq!(classify(b"d\0p2p\0req\0"), None);
    assert_eq!(classify(b"alpha test string"), None);
}

fn run_lockstep(retries: u16) -> (Vec<PunchAction>, Vec<PunchAction>) {
    let mut a = PunchState::new(retries);
    let mut b = PunchState::new(retries);
    let (mut ra, mut rb) = (Vec::new(), Vec::new());
    for _ in 0..10 {
        let (ma, mb) = (stage_message(a.msg), stage_message(b.msg));
        let xa = a.step(true, &mb);
        let xb = b.step(true, &ma);
        ra.push(xa);
        rb.push(xb);
        if xa != PunchAction::Continue || xb != PunchAction::Continue {
            break;
        }
    }
    (ra, rb)
}

#[test]
fn hole_punching_symmetry() {
    let (ra, rb) = run_lockstep(1000);
    assert_eq!(ra, rb);
    assert_eq!(ra, vec![PunchAction::Continue, PunchAction::Continue, PunchAction::Finish]);
}

#[test]
fn hole_punching_peer_ahead_and_errors() {
    let mut s = PunchState::new(1000);
    assert_eq!(s.step(true, b"c\0p2p\0req\0"), PunchAction::Continue);
    assert_eq!(s.msg, Stage::C);
    assert_eq!(s.step(true, b"c\0p2p\0req\0"), PunchAction::Finish);
    let mut s = PunchState::new(1000);
    assert_eq!(s.step(true, b"hello"), PunchAction::Fail(ErrorKind::InvalidInput));
    let mut s = PunchState::new(2);
    assert_eq!(s.step(false, b""), PunchAction::Continue);
    assert_eq!(s.step(false, b"a\0p2p\0req\0"), PunchAction::Continue);
    assert_eq!(s.step(false, b""), PunchAction::Fail(ErrorKind::TimedOut));
    assert_eq!(s.msg, Stage::A);
}

#[test]
fn drain_decisions() {
    assert_eq!(drain_step(true, false, b""), DrainAction::Done);
    assert_eq!(drain_step(false, true, b"a\0p2p\0req\0"), DrainAction::Fail(ErrorKind::BrokenPipe));
    assert_eq!(drain_step(false, true, b"b\0p2p\0req\0"), DrainAction::Fail(ErrorKind::BrokenPipe));
    assert_eq!(drain_step(false, true, b"c\0p2p\0req\0"), DrainAction::Consume);
    assert_eq!(drain_step(false, true, b"payload"), DrainAction::Done);
    assert_eq!(drain_step(false, false, b"c\0p2p\0req\0"), DrainAction::Skip);
}

fn response(xor: Option<&str>, mapped: Option<&str>) -> Vec<u8> {
    let mut m = Message::<Attribute>::new(MessageClass::SuccessResponse, BINDING, TransactionId::new([5; 12]));
    if let Some(a) = xor {
        m.add_attribute(Attribute::XorMappedAddress(XorMappedAddress::new(a.parse().unwrap())));
    }
    if let Some(a) = mapped {
        m.add_attribute(Attribute::MappedAddress(MappedAddress::new(a.parse().unwrap())));
    }
    MessageEncoder::new().encode_into_bytes(m).unwrap()
}

#[test]
fn stun_reply_acceptance() {
    assert_eq!(decode_address(&response(Some("1.2.3.4:5678"), Some("9.9.9.9:1"))).unwrap(), "1.2.3.4:5678");
    assert_eq!(decode_address(&response(None, Some("9.9.9.9:1"))).unwrap(), "9.9.9.9:1");
    assert_eq!(decode_address(&response(None, None)).unwrap_err().kind, ErrorKind::Other);
    assert!(decode_address(&[1, 2, 3]).is_err());
    let rep = StunReply { broken: true, xor_mapped: None, mapped: None };
    assert_eq!(pick_address(rep).unwrap_err().kind, ErrorKind::BrokenMessage);
}

#[test]
fn stun_request_bytes() {
    let req = build_request([7; 12], &Some("howler".to_string())).unwrap();
    let msg = MessageDecoder::<Attribute>::new().decode_from_bytes(&req).unwrap().unwrap();
    assert_eq!(msg.class(), MessageClass::Request);
    assert_eq!(msg.method(), BINDING);
    assert_eq!(msg.transaction_id(), TransactionId::new([7; 12]));
    let plain = build_request([7; 12], &None).unwrap();
    assert!(plain.len() < req.len());
    assert!(build_request([7; 12], &Some("y".repeat(127))).is_ok());
    assert!(howler::stun::new_request(&None).is_ok());
    let long = "x".repeat(128);
    assert_eq!(build_request([7; 12], &Some(long)).unwrap_err().kind, ErrorKind::InvalidInput);
}

#[test]
fn stun_retry_budget() {
    let mut s = StunState::new(2);
    assert_eq!(s.step(false, false), StunAction::Resend);
    assert_eq!(s.step(true, false), StunAction::Resend);
    assert_eq!(s.left, 1);
    assert_eq!(s.step(false, false), StunAction::Resend);
    assert_eq!(s.step(false, false), StunAction::Fail(ErrorKind::TimedOut));
    assert_eq!(StunState::new(5).step(true, true), StunAction::Decode);
}

#[test]
fn configuration_values() {
    let c = SocketConfig::new(7, 40);
    assert_eq!((c.retries, c.timeout_ms), (7, 40));
    assert_eq!(SocketConfig::default(), SocketConfig::new(1000, 25));
    assert_eq!(SocketConfigRaw { retries: 3, timeout: 9 }.into_config(), SocketConfig::new(3, 9));
    assert_eq!(ClientAddress::Single("0.0.0.0:1".to_string()).into_vec(), vec!["0.0.0.0:1".to_string()]);
    let Client::UDP { addr, ttl, .. } = Client::UDP {
        addr: ClientAddress::Vector(vec!["a".to_string(), "b".to_string()]),
        ttl: Some(3),
        sw_tag: None,
    };
    assert_eq!(addr.into_vec().len(), 2);
    assert_eq!(ttl, Some(3));
    let e = NetError::new(ErrorKind::TimedOut, "late".to_string());
    assert_eq!((e.kind, e.message()), (ErrorKind::TimedOut, "late".to_string()));
    assert_eq!(StreamError::new(ErrorKind::ChannelIsFull, "x".to_string()).kind, ErrorKind::ChannelIsFull);
}
