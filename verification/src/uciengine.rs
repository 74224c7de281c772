//! Jobs for the engine actor: the job specification, the encoder that turns
//! a job into its ordered protocol command lines, and the dispatch decisions
//! the actor takes for each job — whether it waits for a terminal line, which
//! line counts as terminal, and how the result is read off such a line.

use vstd::prelude::*;

use crate::analysis::opt_view;
use crate::analysis::AnalysisInfo;
use crate::numbers::append_dec_u64;
use crate::numbers::dec_str;
use crate::tokens::split_spec;
use crate::tokens::str_eq_str;
use crate::tokens::tokenize;
use crate::tokens::views_of;

verus! {

/// The possible position specifiers of a job.
#[derive(Debug, Clone, Copy, PartialEq, Eq, Structural)]
pub enum PosSpec {
    /// the starting position
    Startpos,
    /// a position given as a FEN string
    Fen,
    /// no position specified
    No,
}

/// A job for the engine: configuration options, a position, search limits,
/// and the ponder control flags.  At most one of the ponder-hit, ponder-miss
/// and literal-override forms is meant to be active at a time.
#[derive(Debug, Clone)]
pub struct GoJob {
    /// engine configuration options, unique keys with their values
    uci_options: Vec<(String, String)>,
    /// position specifier
    pos_spec: PosSpec,
    /// position FEN string
    pos_fen: Option<String>,
    /// moves to apply after the position
    pos_moves: Option<String>,
    /// search-limit options of the go command, unique keys with their values
    go_options: Vec<(String, String)>,
    /// literal override command, bypassing all structured fields
    custom_command: Option<String>,
    /// start pondering after this search
    ponder: bool,
    /// the position just became the ponder-hit position
    ponderhit: bool,
    /// abandon the current ponder search
    pondermiss: bool,
}

/// Ghost model of a job, over character sequences.
pub ghost struct GoJobModel {
    pub uci_options: Seq<(Seq<char>, Seq<char>)>,
    pub pos_spec: PosSpec,
    pub pos_fen: Option<Seq<char>>,
    pub pos_moves: Option<Seq<char>>,
    pub go_options: Seq<(Seq<char>, Seq<char>)>,
    pub custom_command: Option<Seq<char>>,
    pub ponder: bool,
    pub ponderhit: bool,
    pub pondermiss: bool,
}

/// The views of a sequence of key-value string pairs.
pub open spec fn pairs_view(ps: Seq<(String, String)>) -> Seq<(Seq<char>, Seq<char>)> {
    ps.map_values(|p: (String, String)| (p.0@, p.1@))
}

impl View for GoJob {
    type V = GoJobModel;

    closed spec fn view(&self) -> GoJobModel {
        GoJobModel {
            uci_options: pairs_view(self.uci_options@),
            pos_spec: self.pos_spec,
            pos_fen: opt_view(self.pos_fen),
            pos_moves: opt_view(self.pos_moves),
            go_options: pairs_view(self.go_options@),
            custom_command: opt_view(self.custom_command),
            ponder: self.ponder,
            ponderhit: self.ponderhit,
            pondermiss: self.pondermiss,
        }
    }
}

/// No two entries share a key.
pub open spec fn keys_unique(opts: Seq<(Seq<char>, Seq<char>)>) -> bool {
    forall|i: int, j: int| 0 <= i < j < opts.len() ==> opts[i].0 != opts[j].0
}

/// Some entry has the key `k`.
pub open spec fn opts_has_key(opts: Seq<(Seq<char>, Seq<char>)>, k: Seq<char>) -> bool {
    exists|i: int| 0 <= i < opts.len() && opts[i].0 == k
}

/// The index of the entry with key `k`.
pub open spec fn key_index(opts: Seq<(Seq<char>, Seq<char>)>, k: Seq<char>) -> int {
    choose|i: int| 0 <= i < opts.len() && opts[i].0 == k
}

/// Setting the option `k` to `v`: the present entry is replaced, a missing
/// one is appended.
pub open spec fn opts_update(
    opts: Seq<(Seq<char>, Seq<char>)>,
    k: Seq<char>,
    v: Seq<char>,
) -> Seq<(Seq<char>, Seq<char>)> {
    if opts_has_key(opts, k) {
        opts.update(key_index(opts, k), (k, v))
    } else {
        opts.push((k, v))
    }
}

/// The model of a job with nothing set.
pub open spec fn default_job() -> GoJobModel {
    GoJobModel {
        uci_options: Seq::empty(),
        pos_spec: PosSpec::No,
        pos_fen: None,
        pos_moves: None,
        go_options: Seq::empty(),
        custom_command: None,
        ponder: false,
        ponderhit: false,
        pondermiss: false,
    }
}

/// Find the entry with the given key.
fn find_key(opts: &Vec<(String, String)>, key: &str) -> (r: Option<usize>)
    ensures
        match r {
            Some(j) => j < opts@.len() && opts@[j as int].0@ == key@,
            None => forall|j: int| 0 <= j < opts@.len() ==> pairs_view(opts@)[j].0 != key@,
        },
{
    let mut i: usize = 0;
    while i < opts.len()
        invariant
            i <= opts@.len(),
            forall|j: int| 0 <= j < i ==> opts@[j].0@ != key@,
        decreases opts@.len() - i,
    {
        if str_eq_str(opts[i].0.as_str(), key) {
            return Some(i);
        }
        i = i + 1;
    }
    None
}

/// Set `key` to `value` in an option list with unique keys.
fn set_opt(opts: &mut Vec<(String, String)>, key: String, value: String)
    requires
        keys_unique(pairs_view(old(opts)@)),
    ensures
        keys_unique(pairs_view(final(opts)@)),
        pairs_view(final(opts)@) == opts_update(pairs_view(old(opts)@), key@, value@),
{
    let ghost old_view = pairs_view(opts@);
    match find_key(opts, key.as_str()) {
        Some(j) => {
            opts.set(j, (key, value));
            proof {
                assert(opts_has_key(old_view, key@)) by {
                    assert(old_view[j as int].0 == key@);
                }
                let i = key_index(old_view, key@);
                assert(old_view[i].0 == key@);
                assert(i == j as int);
                assert(pairs_view(opts@) =~= opts_update(old_view, key@, value@));
                assert forall|a: int, b: int|
                    0 <= a < b < pairs_view(opts@).len() implies pairs_view(opts@)[a].0
                    != pairs_view(opts@)[b].0 by {
                    assert(old_view[a].0 != old_view[b].0);
                }
            }
        },
        None => {
            opts.push((key, value));
            proof {
                assert(!opts_has_key(old_view, key@));
                assert(pairs_view(opts@) =~= opts_update(old_view, key@, value@));
                assert forall|a: int, b: int|
                    0 <= a < b < pairs_view(opts@).len() implies pairs_view(opts@)[a].0
                    != pairs_view(opts@)[b].0 by {
                    if b < old_view.len() {
                        assert(old_view[a].0 != old_view[b].0);
                    } else {
                        assert(pairs_view(opts@)[b].0 == key@);
                        assert(old_view[a].0 != key@);
                    }
                }
            }
        },
    }
}

/// Time control for both sides, all values in milliseconds.
#[derive(Debug, Clone, Copy, PartialEq, Eq, Structural)]
pub struct Timecontrol {
    /// white time
    pub wtime: usize,
    /// white increment
    pub winc: usize,
    /// black time
    pub btime: usize,
    /// black increment
    pub binc: usize,
}

impl Timecontrol {
    /// The default time control: one minute of thinking time for both sides,
    /// no increment.
    pub fn default() -> (r: Self)
        ensures
            r == (Timecontrol { wtime: 60000, winc: 0, btime: 60000, binc: 0 }),
    {
        Timecontrol { wtime: 60000, winc: 0, btime: 60000, binc: 0 }
    }
}

/// One `setoption` command line.
pub open spec fn setoption_line(kv: (Seq<char>, Seq<char>)) -> Seq<char> {
    "setoption name "@ + kv.0 + " value "@ + kv.1
}

/// The ` moves ...` suffix of a position command.
pub open spec fn moves_suffix(m: Option<Seq<char>>) -> Seq<char> {
    match m {
        None => Seq::empty(),
        Some(mv) => " moves "@ + mv,
    }
}

/// The position command of a job: empty when no position was specified.
pub open spec fn position_lines(j: GoJobModel) -> Seq<Seq<char>> {
    match j.pos_spec {
        PosSpec::Startpos => seq!["position startpos"@ + moves_suffix(j.pos_moves)],
        PosSpec::Fen => seq![
            "position fen "@ + (match j.pos_fen {
                Some(fen) => fen,
                None => Seq::empty(),
            }) + moves_suffix(j.pos_moves),
        ],
        PosSpec::No => Seq::empty(),
    }
}

/// The ` <key> <value>` pairs of the go command, in option order.
pub open spec fn go_suffix(opts: Seq<(Seq<char>, Seq<char>)>) -> Seq<char>
    decreases opts.len(),
{
    if opts.len() == 0 {
        Seq::empty()
    } else {
        go_suffix(opts.drop_last()) + seq![' '] + opts.last().0 + seq![' '] + opts.last().1
    }
}

/// The go command line of a job.
pub open spec fn go_line(j: GoJobModel) -> Seq<char> {
    "go"@ + go_suffix(j.go_options) + (if j.ponder {
        " ponder"@
    } else {
        Seq::empty()
    })
}

/// The ordered protocol command lines of a job.  A ponder-hit job is the
/// single line `ponderhit`, a ponder-miss job the single line `stop`, a
/// literal-override job its line verbatim; any other job is its `setoption`
/// lines, its position command if a position was specified, and its go
/// command.
pub open spec fn commands_spec(j: GoJobModel) -> Seq<Seq<char>> {
    if j.ponderhit {
        seq!["ponderhit"@]
    } else if j.pondermiss {
        seq!["stop"@]
    } else {
        match j.custom_command {
            Some(c) => seq![c],
            None => j.uci_options.map_values(|kv: (Seq<char>, Seq<char>)| setoption_line(kv))
                + position_lines(j) + seq![go_line(j)],
        }
    }
}

impl GoJob {
    /// Both option lists have unique keys.
    pub open spec fn wf(&self) -> bool {
        &&& keys_unique(self@.uci_options)
        &&& keys_unique(self@.go_options)
    }

    /// Create a job with nothing set.
    pub fn new() -> (r: Self)
        ensures
            r.wf(),
            r@ == default_job(),
    {
        let job = GoJob {
            pos_spec: PosSpec::No,
            pos_fen: None,
            pos_moves: None,
            uci_options: Vec::new(),
            go_options: Vec::new(),
            custom_command: None,
            ponder: false,
            ponderhit: false,
            pondermiss: false,
        };
        proof {
            assert(job@.uci_options =~= default_job().uci_options);
            assert(job@.go_options =~= default_job().go_options);
        }
        job
    }

    /// Set a literal override command and return the job.  When set, all
    /// other settings are ignored and only this one line is sent.
    pub fn custom(self, command: &str) -> (r: Self)
        ensures
            r@ == (GoJobModel { custom_command: Some(command@), ..self@ }),
    {
        let mut job = self;
        job.custom_command = Some(String::from_str(command));
        job
    }

    /// Set whether to ponder and return the job.
    pub fn set_ponder(self, value: bool) -> (r: Self)
        ensures
            r@ == (GoJobModel { ponder: value, ..self@ }),
    {
        let mut job = self;
        job.ponder = value;
        job
    }

    /// Set pondering and return the job.
    pub fn ponder(self) -> (r: Self)
        ensures
            r@ == (GoJobModel { ponder: true, ..self@ }),
    {
        let mut job = self;
        job.ponder = true;
        job
    }

    /// Mark the job as a ponder hit and return it.
    pub fn ponderhit(self) -> (r: Self)
        ensures
            r@ == (GoJobModel { ponderhit: true, ..self@ }),
    {
        let mut job = self;
        job.ponderhit = true;
        job
    }

    /// Mark the job as a ponder miss and return it.
    pub fn pondermiss(self) -> (r: Self)
        ensures
            r@ == (GoJobModel { pondermiss: true, ..self@ }),
    {
        let mut job = self;
        job.pondermiss = true;
        job
    }

    /// Set the position from a FEN string and return the job.
    pub fn pos_fen(self, fen: &str) -> (r: Self)
        ensures
            r@ == (GoJobModel { pos_spec: PosSpec::Fen, pos_fen: Some(fen@), ..self@ }),
    {
        let mut job = self;
        job.pos_spec = PosSpec::Fen;
        job.pos_fen = Some(String::from_str(fen));
        job
    }

    /// Set the position to the starting position and return the job.
    pub fn pos_startpos(self) -> (r: Self)
        ensures
            r@ == (GoJobModel { pos_spec: PosSpec::Startpos, ..self@ }),
    {
        let mut job = self;
        job.pos_spec = PosSpec::Startpos;
        job
    }

    /// Set the moves to apply after the position and return the job; the
    /// moves are one space-separated string of UCI moves.
    pub fn pos_moves(self, moves: &str) -> (r: Self)
        ensures
            r@ == (GoJobModel { pos_moves: Some(moves@), ..self@ }),
    {
        let mut job = self;
        job.pos_moves = Some(String::from_str(moves));
        job
    }

    /// Set an engine configuration option and return the job.
    pub fn uci_opt(self, key: &str, value: &str) -> (r: Self)
        requires
            self.wf(),
        ensures
            r.wf(),
            r@ == (GoJobModel {
                uci_options: opts_update(self@.uci_options, key@, value@),
                ..self@
            }),
    {
        let mut job = self;
        set_opt(&mut job.uci_options, String::from_str(key), String::from_str(value));
        job
    }

    /// Set a search-limit option of the go command and return the job.
    pub fn go_opt(self, key: &str, value: &str) -> (r: Self)
        requires
            self.wf(),
        ensures
            r.wf(),
            r@ == (GoJobModel {
                go_options: opts_update(self@.go_options, key@, value@),
                ..self@
            }),
    {
        let mut job = self;
        set_opt(&mut job.go_options, String::from_str(key), String::from_str(value));
        job
    }

    /// Set the four time-control options and return the job.
    pub fn tc(self, tc: Timecontrol) -> (r: Self)
        requires
            self.wf(),
        ensures
            r.wf(),
            r@ == (GoJobModel {
                go_options: opts_update(
                    opts_update(
                        opts_update(
                            opts_update(self@.go_options, "wtime"@, dec_str(tc.wtime as nat)),
                            "winc"@,
                            dec_str(tc.winc as nat),
                        ),
                        "btime"@,
                        dec_str(tc.btime as nat),
                    ),
                    "binc"@,
                    dec_str(tc.binc as nat),
                ),
                ..self@
            }),
    {
        let mut job = self;
        let mut wtime = String::new();
        append_dec_u64(&mut wtime, tc.wtime as u64);
        set_opt(&mut job.go_options, String::from_str("wtime"), wtime);
        let mut winc = String::new();
        append_dec_u64(&mut winc, tc.winc as u64);
        set_opt(&mut job.go_options, String::from_str("winc"), winc);
        let mut btime = String::new();
        append_dec_u64(&mut btime, tc.btime as u64);
        set_opt(&mut job.go_options, String::from_str("btime"), btime);
        let mut binc = String::new();
        append_dec_u64(&mut binc, tc.binc as u64);
        set_opt(&mut job.go_options, String::from_str("binc"), binc);
        job
    }

    /// Whether this job waits for the engine's terminal line: every job
    /// does, except a literal-override job and a ponder-start job.
    pub fn expects_result(&self) -> (b: bool)
        ensures
            b == (self@.custom_command is None && !self@.ponder),
    {
        self.custom_command.is_none() && !self.ponder
    }

    /// Encode the job as its ordered protocol command lines.
    pub fn to_commands(&self) -> (r: Vec<String>)
        ensures
            views_of(r@) == commands_spec(self@),
    {
        let mut commands: Vec<String> = Vec::new();
        if self.ponderhit {
            commands.push(String::from_str("ponderhit"));
            proof {
                assert(views_of(commands@) =~= commands_spec(self@));
            }
            return commands;
        }
        if self.pondermiss {
            commands.push(String::from_str("stop"));
            proof {
                assert(views_of(commands@) =~= commands_spec(self@));
            }
            return commands;
        }
        match &self.custom_command {
            Some(command) => {
                commands.push(command.clone());
                proof {
                    assert(views_of(commands@) =~= commands_spec(self@));
                }
                return commands;
            },
            None => (),
        }
        let ghost option_lines = self@.uci_options.map_values(
            |kv: (Seq<char>, Seq<char>)| setoption_line(kv),
        );
        let mut k: usize = 0;
        while k < self.uci_options.len()
            invariant
                k <= self.uci_options@.len(),
                option_lines == self@.uci_options.map_values(
                    |kv: (Seq<char>, Seq<char>)| setoption_line(kv),
                ),
                self@.uci_options == pairs_view(self.uci_options@),
                views_of(commands@) =~= option_lines.take(k as int),
            decreases self.uci_options@.len() - k,
        {
            let mut line = String::from_str("setoption name ");
            line.append(self.uci_options[k].0.as_str());
            line.append(" value ");
            line.append(self.uci_options[k].1.as_str());
            commands.push(line);
            proof {
                assert(views_of(commands@) =~= option_lines.take(k as int).push(
                    setoption_line(self@.uci_options[k as int]),
                ));
                assert(option_lines.take(k as int).push(option_lines[k as int]) =~= option_lines
                    .take(k as int + 1));
            }
            k = k + 1;
        }
        proof {
            assert(option_lines.take(self.uci_options@.len() as int) =~= option_lines);
        }
        let mut pos_command_moves = String::new();
        match &self.pos_moves {
            Some(pos_moves) => {
                pos_command_moves = String::from_str(" moves ");
                pos_command_moves.append(pos_moves.as_str());
            },
            None => (),
        }
        proof {
            assert(pos_command_moves@ == moves_suffix(self@.pos_moves));
        }
        match self.pos_spec {
            PosSpec::Startpos => {
                let mut line = String::from_str("position startpos");
                line.append(pos_command_moves.as_str());
                commands.push(line);
                proof {
                    assert(views_of(commands@) =~= option_lines + position_lines(self@));
                }
            },
            PosSpec::Fen => {
                let mut line = String::from_str("position fen ");
                match &self.pos_fen {
                    Some(fen) => line.append(fen.as_str()),
                    None => (),
                }
                line.append(pos_command_moves.as_str());
                commands.push(line);
                proof {
                    assert(views_of(commands@) =~= option_lines + position_lines(self@));
                }
            },
            PosSpec::No => {
                proof {
                    assert(views_of(commands@) =~= option_lines + position_lines(self@));
                }
            },
        }
        let mut go_command = String::from_str("go");
        let ghost go_opts = self@.go_options;
        let mut g: usize = 0;
        while g < self.go_options.len()
            invariant
                g <= self.go_options@.len(),
                go_opts == self@.go_options,
                self@.go_options == pairs_view(self.go_options@),
                go_command@ == "go"@ + go_suffix(go_opts.take(g as int)),
            decreases self.go_options@.len() - g,
        {
            proof {
                reveal_strlit(" ");
                assert(" "@ =~= seq![' ']);
            }
            go_command.append(" ");
            go_command.append(self.go_options[g].0.as_str());
            go_command.append(" ");
            go_command.append(self.go_options[g].1.as_str());
            proof {
                assert(go_opts.take(g as int + 1).drop_last() =~= go_opts.take(g as int));
                assert(go_opts.take(g as int + 1).last() == go_opts[g as int]);
                assert(go_command@ =~= "go"@ + go_suffix(go_opts.take(g as int + 1)));
            }
            g = g + 1;
        }
        proof {
            assert(go_opts.take(self.go_options@.len() as int) =~= go_opts);
        }
        if self.ponder {
            go_command.append(" ponder");
        }
        proof {
            assert(go_command@ == go_line(self@));
        }
        commands.push(go_command);
        proof {
            assert(views_of(commands@) =~= option_lines + position_lines(self@) + seq![
                go_line(self@),
            ]);
        }
        commands
    }
}

/// The caller-visible outcome of a job: the best and ponder moves, and the
/// final analysis snapshot at completion.
#[derive(Debug, Clone)]
pub struct GoResult {
    /// best move, if the terminal line carried one
    pub bestmove: Option<String>,
    /// ponder move, if the terminal line carried one
    pub ponder: Option<String>,
    /// the analysis snapshot at completion
    pub ai: AnalysisInfo,
}

/// A line announcing the final best move: at least eight characters long and
/// opening with the `bestmove` keyword.
pub open spec fn is_terminal_spec(line: Seq<char>) -> bool {
    line.len() >= 8 && line.take(8) == "bestmove"@
}

/// Classify one engine output line as terminal or not.
pub fn is_terminal_line(line: &str) -> (b: bool)
    ensures
        b == is_terminal_spec(line@),
{
    let n = line.unicode_len();
    if n < 8 {
        return false;
    }
    str_eq_str(line.substring_char(0, 8), "bestmove")
}

/// The best move a terminal line carries: its second whitespace-separated
/// token, where present.
pub open spec fn terminal_bestmove(line: Seq<char>) -> Option<Seq<char>> {
    let parts = split_spec(line, ' ');
    if parts.len() > 1 {
        Some(parts[1])
    } else {
        None
    }
}

/// The ponder move a terminal line carries: its fourth whitespace-separated
/// token, where present.
pub open spec fn terminal_ponder(line: Seq<char>) -> Option<Seq<char>> {
    let parts = split_spec(line, ' ');
    if parts.len() > 3 {
        Some(parts[3])
    } else {
        None
    }
}

/// Combine a terminal line and the analysis snapshot taken at completion
/// into the job's result.
pub fn make_go_result(line: &str, ai: AnalysisInfo) -> (r: GoResult)
    ensures
        opt_view(r.bestmove) == terminal_bestmove(line@),
        opt_view(r.ponder) == terminal_ponder(line@),
        r.ai == ai,
{
    let parts = tokenize(line, ' ');
    let mut result = GoResult { bestmove: None, ponder: None, ai };
    if parts.len() > 1 {
        result.bestmove = Some(parts[1].clone());
    }
    if parts.len() > 3 {
        result.ponder = Some(parts[3].clone());
    }
    result
}

} // verus!
