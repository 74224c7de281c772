use uciengine::analysis::AnalysisInfo;
use uciengine::analysis::InfoParseError;
use uciengine::analysis::Score;
use uciengine::analysis::ScoreType;

#[test]
fn parse_error() {
    let mut ai = AnalysisInfo::new();

    let _ = ai.parse(
        "info depth 3 score mate 5 nodes 3000000000 time 3000 nps 1000000 pv e2e4 e7e5 g1f3",
    );

    assert_eq!(ai.depth, 3);
    assert_eq!(format!("{:?}", ai.score), format!("{:?}", Score::Mate(5)));
    assert_eq!(format!("{:?}", ai.ponder()), format!("{:?}", Some("e7e5")));
}

#[test]
fn parse_full_info_line() {
    let mut ai = AnalysisInfo::new();
    let r = ai.parse(
        "info depth 3 score mate 5 nodes 3000000000 time 3000 nps 1000000 pv e2e4 e7e5 g1f3",
    );
    assert!(r.is_ok());
    assert_eq!(ai.depth, 3);
    assert_eq!(ai.score, Score::Mate(5));
    assert_eq!(ai.scoretype, ScoreType::Exact);
    assert_eq!(ai.nodes, 3000000000);
    assert_eq!(ai.time, 3000);
    assert_eq!(ai.nps, 1000000);
    assert_eq!(ai.bestmove(), Some("e2e4".to_string()));
    assert_eq!(ai.ponder(), Some("e7e5".to_string()));
    assert_eq!(ai.pv(), Some("e2e4 e7e5 g1f3".to_string()));
}

#[test]
fn parse_qualifier_after_score_value() {
    let mut ai = AnalysisInfo::new();
    let r = ai.parse("info depth 3 score mate 5 upperbound nodes 3000000000 time 3000 nps 1000000");
    assert!(r.is_ok());
    assert_eq!(ai.scoretype, ScoreType::Upperbound);
    assert_eq!(ai.score, Score::Mate(5));
}

#[test]
fn parse_lowerbound_qualifier() {
    let mut ai = AnalysisInfo::new();
    let r = ai.parse("info depth 2 score cp -35 lowerbound");
    assert!(r.is_ok());
    assert_eq!(ai.scoretype, ScoreType::Lowerbound);
    assert_eq!(ai.score, Score::Cp(-35));
}

#[test]
fn parse_score_key_resets_scoretype() {
    let mut ai = AnalysisInfo::new();
    let r = ai.parse("info upperbound score cp 10");
    assert!(r.is_ok());
    assert_eq!(ai.scoretype, ScoreType::Exact);
    assert_eq!(ai.score, Score::Cp(10));
}

#[test]
fn parse_non_info_line_changes_nothing() {
    let mut ai = AnalysisInfo::new();
    let r = ai.parse("info depth 7 score cp 12 pv e2e4");
    assert!(r.is_ok());
    let before = format!("{:?}", ai);
    let r = ai.parse("bestmove e2e4 ponder e7e5");
    assert!(r.is_ok());
    assert_eq!(format!("{:?}", ai), before);
    let r = ai.parse("readyok");
    assert!(r.is_ok());
    assert_eq!(format!("{:?}", ai), before);
}

#[test]
fn parse_string_line_is_silently_ignored() {
    let mut ai = AnalysisInfo::new();
    let r = ai.parse("info string NNUE evaluation enabled");
    assert!(r.is_ok());
    assert_eq!(ai.depth, 0);
    assert_eq!(ai.pv(), None);
}

#[test]
fn parse_string_in_later_key_position_is_an_error() {
    let mut ai = AnalysisInfo::new();
    let r = ai.parse("info depth 3 string free text");
    assert_eq!(
        r,
        Err(InfoParseError::InvalidKeyError("string".to_string()))
    );
    // the field decoded before the failure stays applied
    assert_eq!(ai.depth, 3);
}

#[test]
fn parse_bad_number_is_an_error() {
    let mut ai = AnalysisInfo::new();
    let r = ai.parse("info depth x3");
    assert_eq!(
        r,
        Err(InfoParseError::ParseNumberError("depth".to_string()))
    );
    assert_eq!(ai.depth, 0);
}

#[test]
fn parse_number_overflow_is_an_error() {
    let mut ai = AnalysisInfo::new();
    let r = ai.parse("info nodes 99999999999999999999999999");
    assert_eq!(
        r,
        Err(InfoParseError::ParseNumberError("nodes".to_string()))
    );
}

#[test]
fn parse_bad_score_qualifier_is_an_error() {
    let mut ai = AnalysisInfo::new();
    let r = ai.parse("info score pawns 30");
    assert_eq!(
        r,
        Err(InfoParseError::InvalidScoreSpecifier("pawns".to_string()))
    );
}

#[test]
fn parse_error_keeps_earlier_fields_drops_later_ones() {
    let mut ai = AnalysisInfo::new();
    let r = ai.parse("info depth 9 nodes abc time 500");
    assert_eq!(r, Err(InfoParseError::ParseNumberError("nodes".to_string())));
    assert_eq!(ai.depth, 9);
    assert_eq!(ai.time, 0);
}

#[test]
fn parse_unknown_key_is_tolerated() {
    let mut ai = AnalysisInfo::new();
    let r = ai.parse("info wdl 512 choice 488 depth 11");
    assert!(r.is_ok());
    assert_eq!(ai.depth, 11);
}

#[test]
fn parse_numeric_fields() {
    let mut ai = AnalysisInfo::new();
    let r = ai.parse(
        "info seldepth 20 multipv 2 currmove g1f3 currmovenumber 4 hashfull 999 tbhits 12 cpuload 750",
    );
    assert!(r.is_ok());
    assert_eq!(ai.seldepth, 20);
    assert_eq!(ai.multipv, 2);
    assert_eq!(ai.currmove.text(), "g1f3");
    assert_eq!(ai.currmovenumber, 4);
    assert_eq!(ai.hashfull, 999);
    assert_eq!(ai.tbhits, 12);
    assert_eq!(ai.cpuload, 750);
}

#[test]
fn parse_long_pv_is_trimmed_at_a_move_boundary() {
    // twelve moves of four characters: 59 characters joined; the stored
    // variation keeps whole moves only, within the 50-character buffer
    let moves = "a1b1 a2b2 a3b3 a4b4 a5b5 a6b6 a7b7 a8b8 c1d1 c2d2 c3d3 c4d4";
    let mut ai = AnalysisInfo::new();
    let r = ai.parse(format!("info pv {}", moves).as_str());
    assert!(r.is_ok());
    assert_eq!(
        ai.pv(),
        Some("a1b1 a2b2 a3b3 a4b4 a5b5 a6b6 a7b7 a8b8 c1d1 c2d2".to_string())
    );
    assert_eq!(ai.bestmove(), Some("a1b1".to_string()));
    assert_eq!(ai.ponder(), Some("a2b2".to_string()));
}

#[test]
fn parse_line_without_pv_clears_the_stored_pv() {
    let mut ai = AnalysisInfo::new();
    let _ = ai.parse("info depth 1 pv e2e4 e7e5");
    assert_eq!(ai.pv(), Some("e2e4 e7e5".to_string()));
    let r = ai.parse("info depth 2");
    assert!(r.is_ok());
    assert_eq!(ai.pv(), None);
}

#[test]
fn new_record_is_empty() {
    let ai = AnalysisInfo::new();
    assert!(!ai.done);
    assert_eq!(ai.depth, 0);
    assert_eq!(ai.nodes, 0);
    assert_eq!(ai.score, Score::Cp(0));
    assert_eq!(ai.scoretype, ScoreType::Exact);
    assert_eq!(ai.bestmove(), None);
    assert_eq!(ai.ponder(), None);
    assert_eq!(ai.pv(), None);
    assert_eq!(ai.currmove(), None);
}

#[test]
fn serde_round_trip_preserves_all_fields() {
    let mut ai = AnalysisInfo::new();
    let _ = ai.parse(
        "info depth 3 seldepth 5 score cp -17 nodes 42 time 7 nps 6 multipv 1 hashfull 10 tbhits 2 cpuload 900 currmove d2d4 currmovenumber 2 pv e2e4 e7e5",
    );
    let doc = ai.to_serde();
    assert_eq!(doc.disposition, "AnalysisInfo");
    assert_eq!(doc.bestmove, Some("e2e4".to_string()));
    assert_eq!(doc.ponder, Some("e7e5".to_string()));
    assert_eq!(doc.pv, Some("e2e4 e7e5".to_string()));
    assert_eq!(doc.currmove, Some("d2d4".to_string()));
    let back = AnalysisInfo::from_serde(doc);
    assert_eq!(format!("{:?}", back), format!("{:?}", ai));
}

#[test]
fn parse_error_helpers_return_the_error() {
    let r = uciengine::analysis::info_parse_error(InfoParseError::ParseMoveError(
        "e9e9".to_string(),
    ));
    assert_eq!(r, Err(InfoParseError::ParseMoveError("e9e9".to_string())));
    let r = uciengine::analysis::parse_number_error("depth");
    assert_eq!(r, Err(InfoParseError::ParseNumberError("depth".to_string())));
}
