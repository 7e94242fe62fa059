use ussal_runner::auth::TrustedTokens;
use ussal_runner::output::assemble;
use ussal_runner::session::{
    Action, ClientMessage, Event, JobSpec, ServerMessage, Session, SessionState,
};

#[test]
fn test_assemble_concatenates_in_order() {
    let chunks = vec![b"he".to_vec(), b"llo".to_vec(), b" world\n".to_vec()];
    assert_eq!(assemble(&chunks), b"hello world\n".to_vec());
}

#[test]
fn test_assemble_empty() {
    let chunks: Vec<Vec<u8>> = Vec::new();
    assert_eq!(assemble(&chunks), Vec::<u8>::new());
}

#[test]
fn test_assemble_keeps_empty_chunks_harmless() {
    let chunks = vec![b"".to_vec(), b"ab".to_vec(), b"".to_vec(), b"c".to_vec()];
    assert_eq!(assemble(&chunks), b"abc".to_vec());
}

#[test]
fn test_output_round_trip_through_session() {
    // Bytes written by the workload, forwarded as OutputChunk messages and
    // reassembled in delivery order, equal the stdout stream exactly.
    let t = TrustedTokens::new(vec![b"valid-token".to_vec()]);
    let mut s = Session::new();
    s.handle(
        Event::Received(ClientMessage::Authenticate { token: b"valid-token".to_vec() }),
        &t,
    );
    s.handle(
        Event::Received(ClientMessage::SubmitJob {
            job: JobSpec { program: "cat".to_string(), args: vec![] },
        }),
        &t,
    );
    s.handle(Event::SpawnOk, &t);
    assert_eq!(s.state, SessionState::Executing);

    let produced: Vec<Vec<u8>> = vec![
        b"first ".to_vec(),
        b"second ".to_vec(),
        b"".to_vec(),
        b"third\n".to_vec(),
    ];
    let mut delivered: Vec<Vec<u8>> = Vec::new();
    for chunk in &produced {
        for a in s.handle(Event::WorkloadOutput(chunk.clone()), &t) {
            if let Action::Send(ServerMessage::OutputChunk(b)) = a {
                delivered.push(b);
            }
        }
    }
    assert_eq!(delivered, produced);
    assert_eq!(assemble(&delivered), b"first second third\n".to_vec());
    assert_eq!(assemble(&delivered), assemble(&produced));
}
