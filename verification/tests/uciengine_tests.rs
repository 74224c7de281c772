use uciengine::analysis::AnalysisInfo;
use uciengine::uciengine::is_terminal_line;
use uciengine::uciengine::make_go_result;
use uciengine::uciengine::GoJob;
use uciengine::uciengine::Timecontrol;

#[test]
fn ponderhit_job_is_the_single_ponderhit_line() {
    let job = GoJob::new()
        .uci_opt("Hash", "128")
        .pos_startpos()
        .ponderhit();
    assert_eq!(job.to_commands(), vec!["ponderhit".to_string()]);
}

#[test]
fn pondermiss_job_is_the_single_stop_line() {
    let job = GoJob::new().pos_startpos().pondermiss();
    assert_eq!(job.to_commands(), vec!["stop".to_string()]);
}

#[test]
fn custom_job_is_its_line_verbatim() {
    let job = GoJob::new().uci_opt("Threads", "4").custom("quit");
    assert_eq!(job.to_commands(), vec!["quit".to_string()]);
}

#[test]
fn full_job_encodes_options_position_and_go() {
    let job = GoJob::new()
        .uci_opt("UCI_Variant", "atomic")
        .uci_opt("Hash", "128")
        .pos_fen("k7/8/8/8/8/8/R7/7K w - - 0 1")
        .pos_moves("h1h2")
        .go_opt("depth", "12");
    assert_eq!(
        job.to_commands(),
        vec![
            "setoption name UCI_Variant value atomic".to_string(),
            "setoption name Hash value 128".to_string(),
            "position fen k7/8/8/8/8/8/R7/7K w - - 0 1 moves h1h2".to_string(),
            "go depth 12".to_string(),
        ]
    );
}

#[test]
fn startpos_job_with_moves_and_ponder() {
    let job = GoJob::new()
        .pos_startpos()
        .pos_moves("e2e4 e7e5")
        .go_opt("movetime", "1000")
        .ponder();
    assert_eq!(
        job.to_commands(),
        vec![
            "position startpos moves e2e4 e7e5".to_string(),
            "go movetime 1000 ponder".to_string(),
        ]
    );
}

#[test]
fn job_without_position_encodes_only_the_go_line() {
    let job = GoJob::new();
    assert_eq!(job.to_commands(), vec!["go".to_string()]);
}

#[test]
fn repeated_option_key_keeps_the_last_value() {
    let job = GoJob::new()
        .uci_opt("Hash", "64")
        .uci_opt("Hash", "256")
        .pos_startpos();
    assert_eq!(
        job.to_commands(),
        vec![
            "setoption name Hash value 256".to_string(),
            "position startpos".to_string(),
            "go".to_string(),
        ]
    );
}

#[test]
fn time_control_becomes_four_go_options() {
    let job = GoJob::new().pos_startpos().tc(Timecontrol {
        wtime: 15000,
        winc: 0,
        btime: 14000,
        binc: 2,
    });
    assert_eq!(
        job.to_commands(),
        vec![
            "position startpos".to_string(),
            "go wtime 15000 winc 0 btime 14000 binc 2".to_string(),
        ]
    );
}

#[test]
fn default_time_control_is_one_minute_each() {
    let tc = Timecontrol::default();
    assert_eq!(tc.wtime, 60000);
    assert_eq!(tc.winc, 0);
    assert_eq!(tc.btime, 60000);
    assert_eq!(tc.binc, 0);
}

#[test]
fn set_ponder_controls_the_ponder_flag() {
    let job = GoJob::new().set_ponder(true);
    assert_eq!(job.to_commands(), vec!["go ponder".to_string()]);
    let job = GoJob::new().set_ponder(true).set_ponder(false);
    assert_eq!(job.to_commands(), vec!["go".to_string()]);
}

#[test]
fn only_plain_search_jobs_expect_a_result() {
    assert!(GoJob::new().pos_startpos().expects_result());
    assert!(GoJob::new().ponderhit().expects_result());
    assert!(GoJob::new().pondermiss().expects_result());
    assert!(!GoJob::new().ponder().expects_result());
    assert!(!GoJob::new().custom("quit").expects_result());
}

#[test]
fn terminal_lines_open_with_bestmove() {
    assert!(is_terminal_line("bestmove e2e4 ponder e7e5"));
    assert!(is_terminal_line("bestmove"));
    assert!(!is_terminal_line("bestmov"));
    assert!(!is_terminal_line("info depth 3"));
    assert!(!is_terminal_line(""));
}

#[test]
fn go_result_takes_the_second_and_fourth_tokens() {
    let r = make_go_result("bestmove e2e4 ponder e7e5", AnalysisInfo::new());
    assert_eq!(r.bestmove, Some("e2e4".to_string()));
    assert_eq!(r.ponder, Some("e7e5".to_string()));

    let r = make_go_result("bestmove d2d4", AnalysisInfo::new());
    assert_eq!(r.bestmove, Some("d2d4".to_string()));
    assert_eq!(r.ponder, None);

    let r = make_go_result("bestmove", AnalysisInfo::new());
    assert_eq!(r.bestmove, None);
    assert_eq!(r.ponder, None);
}

#[test]
fn go_result_carries_the_snapshot() {
    let mut ai = AnalysisInfo::new();
    let _ = ai.parse("info depth 19 score cp 31");
    let r = make_go_result("bestmove e2e4", ai);
    assert_eq!(r.ai.depth, 19);
}
