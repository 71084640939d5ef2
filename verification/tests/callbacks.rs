//! What the engine reports while a call into it runs.

use ngnet_quic::callbacks::{
    acked_stream_data_offset, get_new_connection_id, minted, rand, recv_stream_data, stream_close,
    stream_code, RandCtx,
};
use ngnet_quic::error::{Error, ErrorKind};
use ngnet_quic::native;
use ngnet_quic::rand::{CountingEntropy, EntropySource};
use ngnet_quic::retain::Retained;
use ngnet_quic::stream::StreamId;

struct Failing;

impl EntropySource for Failing {
    fn fill(&mut self, _dest: &mut [u8]) -> Result<(), Error> {
        Err(Error::with_kind(ErrorKind::Internal, "no entropy today"))
    }
}

#[test]
fn a_callback_reaches_the_handler_through_the_slot() {
    let (stream, fin) = recv_stream_data(native::STREAM_DATA_FLAG_FIN, 0).unwrap();
    assert_eq!((stream.get(), fin), (0, true));
    let (stream, fin) = recv_stream_data(0, 4).unwrap();
    assert_eq!((stream.get(), fin), (4, false));
    assert!(recv_stream_data(0, -1).is_none());
}

#[test]
fn the_rand_callback_reaches_its_source_through_rand_ctx() {
    let mut ctx = RandCtx::new(CountingEntropy::default());
    let mut buf = [0xffu8; 4];
    rand(Some(&mut ctx), &mut buf);
    assert_eq!(buf, [0, 1, 2, 3]);
    assert!(!ctx.failed());
}

#[test]
fn the_rand_callback_initialises_the_buffer_even_with_no_source() {
    let mut buf = [0xffu8; 2];
    rand(None::<&mut RandCtx<CountingEntropy>>, &mut buf);
    assert_eq!(buf, [0, 0]);
}

#[test]
fn a_failing_entropy_source_is_latched_rather_than_ignored() {
    let mut ctx = RandCtx::new(Failing);
    let mut buf = [0xffu8; 4];
    rand(Some(&mut ctx), &mut buf);
    assert_eq!(buf, [0, 0, 0, 0], "the buffer must be left initialised");
    assert!(
        ctx.failed(),
        "the failure must be recorded, since the callback cannot report it"
    );
}

#[test]
fn an_empty_buffer_does_not_ask_the_source() {
    let mut ctx = RandCtx::new(Failing);
    let mut buf = [0u8; 0];
    ctx.rand(&mut buf);
    assert!(!ctx.failed());
}

struct Boxed(Box<dyn EntropySource + Send>);

impl EntropySource for Boxed {
    fn fill(&mut self, dest: &mut [u8]) -> Result<(), Error> {
        self.0.fill(dest)
    }
}

#[test]
fn a_source_of_any_type_can_be_boxed() {
    let mut ctx = RandCtx::new(Boxed(Box::new(CountingEntropy::default())));
    let mut buf = [0xffu8; 2];
    ctx.rand(&mut buf);
    assert_eq!(buf, [0, 1]);
    assert_eq!(ctx.path_challenge(&mut buf), 0);
    assert_eq!(buf, [2, 3]);
}

#[test]
fn a_path_challenge_is_refused_where_the_source_fails() {
    let mut ctx = RandCtx::new(Failing);
    let mut buf = [1u8; 8];
    assert_eq!(ctx.path_challenge(&mut buf), native::ERR_CALLBACK_FAILURE);
    assert!(ctx.failed());
    let mut ctx = RandCtx::new(CountingEntropy::default());
    assert_eq!(ctx.path_challenge(&mut buf), 0);
    assert_eq!(buf, [0, 1, 2, 3, 4, 5, 6, 7]);
}

#[test]
fn connection_ids_are_minted_from_the_installed_source() {
    let mut source = CountingEntropy::default();
    let (cid, token) = get_new_connection_id(Some(&mut source), 8).unwrap();
    assert_eq!(cid.as_bytes(), &[0, 1, 2, 3, 4, 5, 6, 7]);
    assert_eq!(token[0], 8);
    assert_eq!(token.len(), 16);
}

#[test]
fn minting_a_connection_id_without_a_source_fails_rather_than_inventing_bytes() {
    let minted = get_new_connection_id(None::<&mut CountingEntropy>, 8);
    assert_eq!(minted.unwrap_err(), native::ERR_CALLBACK_FAILURE);
    let minted = get_new_connection_id(Some(&mut Failing), 8);
    assert_eq!(minted.unwrap_err(), native::ERR_CALLBACK_FAILURE);
}

#[test]
fn an_identifier_without_its_token_is_not_minted() {
    let failed = Err(Error::with_kind(ErrorKind::Internal, "spent"));
    assert_eq!(
        minted(Ok(()), &[1; 8], failed, vec![0; 16]).unwrap_err(),
        native::ERR_CALLBACK_FAILURE
    );
    let (cid, token) = minted(Ok(()), &[1; 8], Ok(()), vec![2; 16]).unwrap();
    assert_eq!(cid.as_bytes(), &[1; 8]);
    assert_eq!(token, vec![2; 16]);
}

#[test]
fn a_closed_stream_releases_its_data_and_carries_the_codes_that_were_set() {
    let stream = StreamId::new(4).unwrap();
    let mut retained = Retained::new();
    retained.stage_many(stream, &[&[1, 2, 3]]);
    retained.commit(stream, 3);
    let (closed, reason) = stream_close(&mut retained, 4, true, 0, false, 9).unwrap();
    assert_eq!(closed, stream);
    assert_eq!(reason.receiving().unwrap().get(), 0);
    assert!(reason.sending().is_none());
    assert!(!reason.is_clean());
    assert_eq!(retained.bytes_held(), 0);
    assert!(stream_close(&mut retained, -1, false, 0, false, 0).is_none());
}

#[test]
fn an_acknowledgement_releases_what_it_covers() {
    let stream = StreamId::new(0).unwrap();
    let mut retained = Retained::new();
    retained.stage_many(stream, &[&[0; 10]]);
    retained.commit(stream, 10);
    assert_eq!(acked_stream_data_offset(&mut retained, 0, 0, 10).unwrap(), (stream, 10));
    assert_eq!(retained.bytes_held(), 0);
    assert!(acked_stream_data_offset(&mut retained, -1, 0, 10).is_none());
}

#[test]
fn a_reset_names_its_stream_and_code() {
    let (stream, code) = stream_code(7, 0x10).unwrap();
    assert_eq!((stream.get(), code.get()), (7, 0x10));
    assert!(stream_code(StreamId::MAX + 1, 0).is_none());
}
