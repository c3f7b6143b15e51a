use rustbot::audio::{Player, TickAction};
use rustbot::jet::{prompt_from_payload, Config as BusConfig, TurnGate};
use rustbot::llm::{Config as LlmConfig, Generator};
use rustbot::message::{decode_all, Chunk};
use rustbot::orchestrator::Supervisor;
use rustbot::tts::Synthesizer;

fn frag(s: &str) -> Chunk {
    Chunk::Fragment(s.as_bytes().to_vec())
}

fn view(c: &Chunk) -> Option<Vec<u8>> {
    match c {
        Chunk::Fragment(b) => Some(b.clone()),
        Chunk::EndOfMessage => None,
    }
}

#[test]
fn generator_context_holds_seed_and_prompt() {
    let c = LlmConfig {
        hist_size: 50,
        model_name: "llama2:latest".to_string(),
        seed_prompt: Some("seed".to_string()),
    };
    let mut g = Generator::new(c);
    assert_eq!(g.model_name(), "llama2:latest");
    let ctx = g.on_prompt("Question: What is Go?".to_string());
    assert_eq!(ctx, "seed\nQuestion: What is Go?");
}

#[test]
fn generator_history_drops_oldest() {
    let c = LlmConfig { hist_size: 2, model_name: "m".to_string(), seed_prompt: Some("seed".to_string()) };
    let mut g = Generator::new(c);
    assert_eq!(g.on_prompt("p1".to_string()), "seed\np1");
    assert_eq!(g.on_prompt("p2".to_string()), "p1\np2");
}

#[test]
fn fan_out_order_is_the_same_on_both_sides() {
    let fragments = ["f1", "f2", "f3"];
    let mut writer_side = Vec::new();
    let mut synth_side = Vec::new();
    for f in fragments {
        let (a, b) = Generator::fan_out(f);
        writer_side.push(view(&a));
        synth_side.push(view(&b));
    }
    let (a, b) = Generator::end_of_reply();
    writer_side.push(view(&a));
    synth_side.push(view(&b));
    let expected = vec![Some(b"f1".to_vec()), Some(b"f2".to_vec()), Some(b"f3".to_vec()), None];
    assert_eq!(writer_side, expected);
    assert_eq!(synth_side, expected);
}

#[test]
fn llm_config_default() {
    let c = LlmConfig::default();
    assert_eq!(c.hist_size, 50);
    assert_eq!(c.model_name, "llama2:latest");
    assert!(c.seed_prompt.is_none());
}

#[test]
fn bus_config_default() {
    let c = BusConfig::default();
    assert_eq!(c.nats_url, "nats://localhost:4222");
    assert_eq!(c.durable_name, "rustbot");
    assert_eq!(c.stream_name, "banter");
    assert_eq!(c.pub_subject, "go");
    assert_eq!(c.sub_subject, "rust");
}

#[test]
fn prompt_payload_decodes() {
    let p = prompt_from_payload(b"Question: What is Go?".to_vec()).unwrap();
    assert_eq!(p, "Question: What is Go?");
    let p = prompt_from_payload("caf\u{e9}".as_bytes().to_vec()).unwrap();
    assert_eq!(p, "caf\u{e9}");
}

#[test]
fn prompt_payload_rejects_invalid_utf8() {
    assert!(prompt_from_payload(vec![0x66, 0xff, 0x6f]).is_err());
}

#[test]
fn decode_all_fails_on_one_bad_payload() {
    let ok = decode_all(&vec![b"ab".to_vec(), b"c".to_vec()]).unwrap();
    assert_eq!(ok, vec!["ab".to_string(), "c".to_string()]);
    assert!(decode_all(&vec![b"ab".to_vec(), vec![0xc3]]).is_err());
}

#[test]
fn synthesizer_single_request_without_overflow() {
    let mut s = Synthesizer::new(1000);
    for f in ["Go", " is", " a language."] {
        assert!(s.on_chunk(&frag(f)).unwrap().is_empty());
    }
    let reqs = s.on_chunk(&Chunk::EndOfMessage).unwrap();
    assert_eq!(reqs, vec!["Go is a language.".to_string()]);
}

#[test]
fn synthesizer_overflow_carries_remainder() {
    let mut s = Synthesizer::new(10);
    assert!(s.on_chunk(&frag("abcdef")).unwrap().is_empty());
    let reqs = s.on_chunk(&frag("ghijkl")).unwrap();
    assert_eq!(reqs, vec!["abcdefghij".to_string()]);
    let reqs = s.on_chunk(&Chunk::EndOfMessage).unwrap();
    assert_eq!(reqs, vec!["kl".to_string()]);
}

#[test]
fn synthesizer_oversized_fragment_splits_repeatedly() {
    let mut s = Synthesizer::new(4);
    let reqs = s.take(&frag("abcdefghij"));
    assert_eq!(reqs, vec![b"abcd".to_vec(), b"efgh".to_vec()]);
    let reqs = s.take(&Chunk::EndOfMessage);
    assert_eq!(reqs, vec![b"ij".to_vec()]);
}

#[test]
fn synthesizer_exact_fill_waits_for_next_byte() {
    let mut s = Synthesizer::new(4);
    assert!(s.take(&frag("abcd")).is_empty());
    assert_eq!(s.take(&frag("e")), vec![b"abcd".to_vec()]);
    assert_eq!(s.take(&Chunk::EndOfMessage), vec![b"e".to_vec()]);
}

#[test]
fn synthesizer_exact_fill_flushes_at_end() {
    let mut s = Synthesizer::new(4);
    assert!(s.take(&frag("ab")).is_empty());
    assert!(s.take(&frag("cd")).is_empty());
    assert_eq!(s.take(&Chunk::EndOfMessage), vec![b"abcd".to_vec()]);
    assert!(s.take(&Chunk::EndOfMessage).is_empty());
}

#[test]
fn synthesizer_two_exact_batches() {
    let mut s = Synthesizer::new(4);
    assert_eq!(s.take(&frag("abcdefgh")), vec![b"abcd".to_vec()]);
    assert_eq!(s.take(&Chunk::EndOfMessage), vec![b"efgh".to_vec()]);
}

#[test]
fn synthesizer_empty_flush_is_skipped() {
    let mut s = Synthesizer::new(8);
    assert!(s.on_chunk(&Chunk::EndOfMessage).unwrap().is_empty());
}

#[test]
fn synthesizer_rejects_invalid_text() {
    let mut s = Synthesizer::new(8);
    assert!(s.on_chunk(&Chunk::Fragment(vec![0xff, 0xfe])).unwrap().is_empty());
    assert!(s.on_chunk(&Chunk::EndOfMessage).is_err());
}

#[test]
fn writer_publishes_only_after_turn_done() {
    let mut g = TurnGate::new();
    assert!(g.on_turn_done().is_none());
    for f in ["Go", " is", " a language."] {
        assert!(g.on_chunk(&frag(f)).unwrap().is_none());
    }
    assert!(!g.is_awaiting_turn());
    let shown = g.on_chunk(&Chunk::EndOfMessage).unwrap();
    assert_eq!(shown.as_deref(), Some("Go is a language."));
    assert!(g.is_awaiting_turn());
    let published = g.on_turn_done().unwrap();
    assert_eq!(&published[..], b"Go is a language.");
    assert!(!g.is_awaiting_turn());
    assert!(g.on_turn_done().is_none());
}

#[test]
fn writer_stale_turn_done_keeps_text() {
    let mut g = TurnGate::new();
    assert!(g.on_chunk(&frag("partial")).unwrap().is_none());
    assert!(g.on_turn_done().is_none());
    assert!(g.on_chunk(&frag(" reply")).unwrap().is_none());
    assert!(g.on_chunk(&Chunk::EndOfMessage).unwrap().is_some());
    assert_eq!(&g.on_turn_done().unwrap()[..], b"partial reply");
}

#[test]
fn writer_second_reply_starts_empty() {
    let mut g = TurnGate::new();
    g.on_chunk(&frag("one")).unwrap();
    g.on_chunk(&Chunk::EndOfMessage).unwrap();
    g.on_turn_done().unwrap();
    g.on_chunk(&frag("two")).unwrap();
    g.on_chunk(&Chunk::EndOfMessage).unwrap();
    assert_eq!(&g.on_turn_done().unwrap()[..], b"two");
}

#[test]
fn writer_rejects_invalid_text() {
    let mut g = TurnGate::new();
    g.on_chunk(&Chunk::Fragment(vec![0xc3, 0x28])).unwrap();
    assert!(g.on_chunk(&Chunk::EndOfMessage).is_err());
    assert!(!g.is_awaiting_turn());
}

#[test]
fn player_signals_turn_end_once() {
    let mut p = Player::new(4, 200, 0);
    assert!(p.on_audio(&[1, 2, 3]).is_none());
    let chunk = p.on_audio(&[4, 5, 6]).unwrap();
    assert_eq!(chunk, vec![1, 2, 3, 4]);
    p.on_played(1000);
    assert!(matches!(p.on_tick(1100, true), TickAction::Wait));
    assert!(matches!(p.on_tick(1200, false), TickAction::Wait));
    match p.on_tick(1200, true) {
        TickAction::EndTurn(rest) => assert_eq!(rest, vec![5, 6]),
        TickAction::Wait => panic!("turn should have ended"),
    }
    assert!(matches!(p.on_tick(1400, true), TickAction::Wait));
    assert!(matches!(p.on_tick(5000, true), TickAction::Wait));
}

#[test]
fn player_waits_until_audio_played() {
    let mut p = Player::new(4, 200, 0);
    assert!(matches!(p.on_tick(10_000, true), TickAction::Wait));
    assert!(p.on_audio(&[9, 9]).is_none());
    assert!(matches!(p.on_tick(20_000, true), TickAction::Wait));
    assert_eq!(p.finish(), vec![9, 9]);
    assert!(p.finish().is_empty());
}

#[test]
fn player_chunk_needs_more_than_threshold() {
    let mut p = Player::new(4, 200, 0);
    assert!(p.on_audio(&[1, 2, 3, 4]).is_none());
    assert_eq!(p.on_audio(&[5]).unwrap(), vec![1, 2, 3, 4]);
    assert_eq!(p.finish(), vec![5]);
}

#[test]
fn supervisor_first_exit_aborts_the_rest() {
    let mut s = Supervisor::new(5);
    assert_eq!(s.on_exit(2, false), vec![0, 1, 3, 4]);
    assert_eq!(s.exit_code(), 0);
    assert!(s.on_exit(0, true).is_empty());
    assert_eq!(s.exit_code(), 0);
}

#[test]
fn supervisor_failure_gives_nonzero_code() {
    let mut s = Supervisor::new(3);
    assert_eq!(s.exit_code(), 0);
    assert_eq!(s.on_exit(0, true), vec![1, 2]);
    assert_ne!(s.exit_code(), 0);
}

#[test]
fn end_to_end_reply_cycle() {
    // Prompt arrives on the bus and is recorded in the history.
    let prompt = prompt_from_payload(b"Question: What is Go?".to_vec()).unwrap();
    let mut g = Generator::new(LlmConfig { hist_size: 50, model_name: "m".to_string(), seed_prompt: None });
    assert_eq!(g.on_prompt(prompt), "Question: What is Go?");

    let mut writer = TurnGate::new();
    let mut synth = Synthesizer::new(1000);
    let mut requests = Vec::new();
    for f in ["Go", " is", " a language."] {
        let (w, s) = Generator::fan_out(f);
        assert!(writer.on_chunk(&w).unwrap().is_none());
        requests.extend(synth.on_chunk(&s).unwrap());
    }
    let (w, s) = Generator::end_of_reply();
    writer.on_chunk(&w).unwrap();
    requests.extend(synth.on_chunk(&s).unwrap());
    assert_eq!(requests, vec!["Go is a language.".to_string()]);

    // The player plays one chunk; nothing is published before the turn ends.
    let mut player = Player::new(2, 200, 0);
    assert!(player.on_audio(&[1, 2, 3]).is_some());
    player.on_played(0);
    let mut turn_ends = 0;
    let mut published = Vec::new();
    for now in [100u64, 200, 300, 400] {
        if let TickAction::EndTurn(_) = player.on_tick(now, true) {
            turn_ends += 1;
            published.push(writer.on_turn_done().unwrap().to_vec());
        }
    }
    assert_eq!(turn_ends, 1);
    assert_eq!(published, vec![b"Go is a language.".to_vec()]);
}
