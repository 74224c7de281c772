//! The structured analysis record and the `info`-line parser.
//!
//! An [`AnalysisInfo`] is the snapshot of one search: depth, score, node
//! counts, the best move and the principal variation, kept in fixed-capacity
//! buffers.  [`AnalysisInfo::parse`] decodes one engine output line into the
//! record through a token-level state machine whose behaviour is given by the
//! specification interpreter [`run`].

use vstd::prelude::*;

use crate::buffer::cut_spec;
use crate::buffer::trim_spec;
use crate::buffer::PvBuff;
use crate::buffer::UciBuff;
use crate::buffer::PV_BUFF_SIZE;
use crate::buffer::UCI_MAX_LENGTH;
use crate::numbers::i32_from_chars;
use crate::numbers::parse_i32;
use crate::numbers::parse_usize;
use crate::numbers::parse_u64;
use crate::numbers::u64_from_chars;
use crate::numbers::usize_from_chars;
use crate::tokens::first_sep;
use crate::tokens::split_spec;
use crate::tokens::str_eq_str;
use crate::tokens::tokenize;
use crate::tokens::views_of;

verus! {

/// The ways a malformed info line fails to parse.
#[derive(Debug, Clone, PartialEq, Eq)]
pub enum InfoParseError {
    /// the token for the named key did not parse as the expected number
    ParseNumberError(String),
    /// the token for the named key did not parse as a move
    ParseMoveError(String),
    /// a key that may only open the line appeared in a later key position
    InvalidKeyError(String),
    /// the token after `score` was neither `cp` nor `mate`
    InvalidScoreSpecifier(String),
}

/// Ghost model of a parse error, over character sequences.
pub ghost enum ParseErr {
    Number(Seq<char>),
    Move(Seq<char>),
    Key(Seq<char>),
    ScoreSpec(Seq<char>),
}

impl View for InfoParseError {
    type V = ParseErr;

    open spec fn view(&self) -> ParseErr {
        match self {
            InfoParseError::ParseNumberError(s) => ParseErr::Number(s@),
            InfoParseError::ParseMoveError(s) => ParseErr::Move(s@),
            InfoParseError::InvalidKeyError(s) => ParseErr::Key(s@),
            InfoParseError::InvalidScoreSpecifier(s) => ParseErr::ScoreSpec(s@),
        }
    }
}

/// Return `err` as a failed parse result.
pub fn info_parse_error(err: InfoParseError) -> (r: Result<(), InfoParseError>)
    ensures
        r matches Err(e) && e == err,
{
    Err(err)
}

/// Report that the numeric argument of the field `key` did not parse.
pub fn parse_number_error(key: &str) -> (r: Result<(), InfoParseError>)
    ensures
        r matches Err(e) && e@ == ParseErr::Number(key@),
{
    info_parse_error(InfoParseError::ParseNumberError(String::from_str(key)))
}

/// An engine evaluation: either centipawns or moves to mate, in plies.
#[derive(Debug, Clone, Copy, PartialEq, Eq, Structural)]
pub enum Score {
    /// centipawn score
    Cp(i32),
    /// forced mate in the given number of plies
    Mate(i32),
}

/// Whether a score is exact or only a bound.
#[derive(Debug, Clone, Copy, PartialEq, Eq, Structural)]
pub enum ScoreType {
    Exact,
    Lowerbound,
    Upperbound,
}

/// The states of the info-line parser.  Each numeric state consumes the one
/// numeric argument of its key; the `Pv*` states consume the rest of the line.
#[derive(Debug, Clone, Copy, PartialEq, Eq, Structural)]
pub enum ParsingState {
    Info,
    Key,
    Unknown,
    Depth,
    Seldepth,
    Time,
    Nodes,
    Multipv,
    Score,
    ScoreCp,
    ScoreMate,
    Currmove,
    Currmovenumber,
    Hashfull,
    Nps,
    Tbhits,
    Cpuload,
    PvBestmove,
    PvPonder,
    PvRest,
}

/// The analysis snapshot of one search.
#[derive(Debug, Clone)]
pub struct AnalysisInfo {
    /// false while the search runs, true once its final result line was seen
    pub done: bool,
    /// best move
    bestmove: UciBuff,
    /// the move the engine expects to ponder on
    ponder: UciBuff,
    /// principal variation
    pv: PvBuff,
    /// search depth
    pub depth: usize,
    /// selective search depth
    pub seldepth: usize,
    /// search time in milliseconds
    pub time: usize,
    /// nodes searched
    pub nodes: u64,
    /// multipv line number
    pub multipv: usize,
    /// score, in centipawns or plies to mate
    pub score: Score,
    /// move currently searched
    pub currmove: UciBuff,
    /// number of the move currently searched
    pub currmovenumber: usize,
    /// hash table fill, per mille
    pub hashfull: usize,
    /// nodes per second
    pub nps: u64,
    /// tablebase hits
    pub tbhits: u64,
    /// cpu load, per mille
    pub cpuload: usize,
    /// whether the score is exact or a bound
    pub scoretype: ScoreType,
}

/// Ghost model of an analysis record: buffer contents as character
/// sequences, every other field as itself.
pub ghost struct AnalysisModel {
    pub done: bool,
    pub bestmove: Seq<char>,
    pub ponder: Seq<char>,
    pub pv: Seq<char>,
    pub depth: usize,
    pub seldepth: usize,
    pub time: usize,
    pub nodes: u64,
    pub multipv: usize,
    pub score: Score,
    pub currmove: Seq<char>,
    pub currmovenumber: usize,
    pub hashfull: usize,
    pub nps: u64,
    pub tbhits: u64,
    pub cpuload: usize,
    pub scoretype: ScoreType,
}

impl View for AnalysisInfo {
    type V = AnalysisModel;

    closed spec fn view(&self) -> AnalysisModel {
        AnalysisModel {
            done: self.done,
            bestmove: self.bestmove@,
            ponder: self.ponder@,
            pv: self.pv@,
            depth: self.depth,
            seldepth: self.seldepth,
            time: self.time,
            nodes: self.nodes,
            multipv: self.multipv,
            score: self.score,
            currmove: self.currmove@,
            currmovenumber: self.currmovenumber,
            hashfull: self.hashfull,
            nps: self.nps,
            tbhits: self.tbhits,
            cpuload: self.cpuload,
            scoretype: self.scoretype,
        }
    }
}

/// The record of a search that has not reported anything yet.
pub open spec fn default_model() -> AnalysisModel {
    AnalysisModel {
        done: false,
        bestmove: Seq::empty(),
        ponder: Seq::empty(),
        pv: Seq::empty(),
        depth: 0,
        seldepth: 0,
        time: 0,
        nodes: 0,
        multipv: 0,
        score: Score::Cp(0),
        currmove: Seq::empty(),
        currmovenumber: 0,
        hashfull: 0,
        nps: 0,
        tbhits: 0,
        cpuload: 0,
        scoretype: ScoreType::Exact,
    }
}

/// Every buffer of the model is within its capacity.
pub open spec fn model_fits(m: AnalysisModel) -> bool {
    &&& m.bestmove.len() <= UCI_MAX_LENGTH
    &&& m.ponder.len() <= UCI_MAX_LENGTH
    &&& m.pv.len() <= PV_BUFF_SIZE
    &&& m.currmove.len() <= UCI_MAX_LENGTH
}

/// The analysis record rendered with plain optional strings, the form in
/// which a record is exchanged with the outside as a flat document.
#[derive(Debug, Clone)]
pub struct AnalysisInfoSerde {
    /// tag naming the kind of document
    pub disposition: String,
    pub done: bool,
    pub bestmove: Option<String>,
    pub ponder: Option<String>,
    pub pv: Option<String>,
    pub depth: usize,
    pub seldepth: usize,
    pub time: usize,
    pub nodes: u64,
    pub multipv: usize,
    pub score: Score,
    pub currmove: Option<String>,
    pub currmovenumber: usize,
    pub hashfull: usize,
    pub nps: u64,
    pub tbhits: u64,
    pub cpuload: usize,
    pub scoretype: ScoreType,
}

/// Ghost model of the flat document form.
pub ghost struct SerdeModel {
    pub disposition: Seq<char>,
    pub done: bool,
    pub bestmove: Option<Seq<char>>,
    pub ponder: Option<Seq<char>>,
    pub pv: Option<Seq<char>>,
    pub depth: usize,
    pub seldepth: usize,
    pub time: usize,
    pub nodes: u64,
    pub multipv: usize,
    pub score: Score,
    pub currmove: Option<Seq<char>>,
    pub currmovenumber: usize,
    pub hashfull: usize,
    pub nps: u64,
    pub tbhits: u64,
    pub cpuload: usize,
    pub scoretype: ScoreType,
}

/// The view of an optional string.
pub open spec fn opt_view(o: Option<String>) -> Option<Seq<char>> {
    match o {
        None => None,
        Some(s) => Some(s@),
    }
}

impl View for AnalysisInfoSerde {
    type V = SerdeModel;

    open spec fn view(&self) -> SerdeModel {
        SerdeModel {
            disposition: self.disposition@,
            done: self.done,
            bestmove: opt_view(self.bestmove),
            ponder: opt_view(self.ponder),
            pv: opt_view(self.pv),
            depth: self.depth,
            seldepth: self.seldepth,
            time: self.time,
            nodes: self.nodes,
            multipv: self.multipv,
            score: self.score,
            currmove: opt_view(self.currmove),
            currmovenumber: self.currmovenumber,
            hashfull: self.hashfull,
            nps: self.nps,
            tbhits: self.tbhits,
            cpuload: self.cpuload,
            scoretype: self.scoretype,
        }
    }
}

/// An empty buffer content renders as absent, anything else as present.
pub open spec fn opt_of_seq(s: Seq<char>) -> Option<Seq<char>> {
    if s.len() == 0 {
        None
    } else {
        Some(s)
    }
}

/// An absent field decodes as the empty content.
pub open spec fn seq_of_opt(o: Option<Seq<char>>) -> Seq<char> {
    match o {
        None => Seq::empty(),
        Some(s) => s,
    }
}

/// What encoding a record into the flat document form yields.
pub open spec fn to_serde_spec(m: AnalysisModel) -> SerdeModel {
    SerdeModel {
        disposition: "AnalysisInfo"@,
        done: m.done,
        bestmove: opt_of_seq(m.bestmove),
        ponder: opt_of_seq(m.ponder),
        pv: opt_of_seq(m.pv),
        depth: m.depth,
        seldepth: m.seldepth,
        time: m.time,
        nodes: m.nodes,
        multipv: m.multipv,
        score: m.score,
        currmove: opt_of_seq(m.currmove),
        currmovenumber: m.currmovenumber,
        hashfull: m.hashfull,
        nps: m.nps,
        tbhits: m.tbhits,
        cpuload: m.cpuload,
        scoretype: m.scoretype,
    }
}

/// What decoding the flat document form back into a record yields: string
/// fields are cut to their buffers' capacities.
pub open spec fn from_serde_spec(sm: SerdeModel) -> AnalysisModel {
    AnalysisModel {
        done: sm.done,
        bestmove: cut_spec(seq_of_opt(sm.bestmove), UCI_MAX_LENGTH as nat),
        ponder: cut_spec(seq_of_opt(sm.ponder), UCI_MAX_LENGTH as nat),
        pv: cut_spec(seq_of_opt(sm.pv), PV_BUFF_SIZE as nat),
        depth: sm.depth,
        seldepth: sm.seldepth,
        time: sm.time,
        nodes: sm.nodes,
        multipv: sm.multipv,
        score: sm.score,
        currmove: cut_spec(seq_of_opt(sm.currmove), UCI_MAX_LENGTH as nat),
        currmovenumber: sm.currmovenumber,
        hashfull: sm.hashfull,
        nps: sm.nps,
        tbhits: sm.tbhits,
        cpuload: sm.cpuload,
        scoretype: sm.scoretype,
    }
}

/// Encoding a record as a flat document and decoding it back preserves
/// every field.
pub proof fn lemma_serde_round_trip(m: AnalysisModel)
    requires
        model_fits(m),
    ensures
        from_serde_spec(to_serde_spec(m)) == m,
{
    assert(cut_spec(seq_of_opt(opt_of_seq(m.bestmove)), UCI_MAX_LENGTH as nat) == m.bestmove);
    assert(cut_spec(seq_of_opt(opt_of_seq(m.ponder)), UCI_MAX_LENGTH as nat) == m.ponder);
    assert(cut_spec(seq_of_opt(opt_of_seq(m.pv)), PV_BUFF_SIZE as nat) == m.pv);
    assert(cut_spec(seq_of_opt(opt_of_seq(m.currmove)), UCI_MAX_LENGTH as nat) == m.currmove);
}

/// The outcome of running the parser state machine over the remaining tokens
/// of a line.
pub ghost enum RunOut {
    /// the line was dismissed early, with success
    Early { m: AnalysisModel },
    /// the line failed; fields decoded before the failure stay applied
    Fail { m: AnalysisModel, e: ParseErr },
    /// the whole line was consumed; `pv` is the accumulated variation, still
    /// to be committed to the record
    Finish { m: AnalysisModel, pv: Seq<char> },
}

/// The parser state machine, one step per token: what the parser does to the
/// record model `m` in state `ps` on the remaining tokens `toks`, carrying
/// the accumulated variation `pvb`, the flag `pv_on` that marks that the
/// rest of the line belongs to the variation, and the flag `fk` that marks
/// that no key has been dispatched yet.
pub open spec fn run(
    m: AnalysisModel,
    ps: ParsingState,
    pvb: Seq<char>,
    pv_on: bool,
    fk: bool,
    toks: Seq<Seq<char>>,
) -> RunOut
    decreases toks.len(),
{
    if toks.len() == 0 {
        RunOut::Finish { m, pv: pvb }
    } else {
        let t = toks[0];
        let rest = toks.skip(1);
        match ps {
            ParsingState::Info => {
                if t == "info"@ {
                    run(m, ParsingState::Key, pvb, pv_on, fk, rest)
                } else {
                    RunOut::Early { m }
                }
            },
            ParsingState::Key => {
                if t == "string"@ || t == "refutation"@ || t == "currline"@ {
                    if fk {
                        RunOut::Early { m }
                    } else {
                        RunOut::Fail { m, e: ParseErr::Key(t) }
                    }
                } else if t == "lowerbound"@ {
                    run(
                        AnalysisModel { scoretype: ScoreType::Lowerbound, ..m },
                        ParsingState::Key,
                        pvb,
                        pv_on,
                        false,
                        rest,
                    )
                } else if t == "upperbound"@ {
                    run(
                        AnalysisModel { scoretype: ScoreType::Upperbound, ..m },
                        ParsingState::Key,
                        pvb,
                        pv_on,
                        false,
                        rest,
                    )
                } else if t == "depth"@ {
                    run(m, ParsingState::Depth, pvb, pv_on, false, rest)
                } else if t == "seldepth"@ {
                    run(m, ParsingState::Seldepth, pvb, pv_on, false, rest)
                } else if t == "time"@ {
                    run(m, ParsingState::Time, pvb, pv_on, false, rest)
                } else if t == "nodes"@ {
                    run(m, ParsingState::Nodes, pvb, pv_on, false, rest)
                } else if t == "multipv"@ {
                    run(m, ParsingState::Multipv, pvb, pv_on, false, rest)
                } else if t == "score"@ {
                    run(
                        AnalysisModel { scoretype: ScoreType::Exact, ..m },
                        ParsingState::Score,
                        pvb,
                        pv_on,
                        false,
                        rest,
                    )
                } else if t == "currmove"@ {
                    run(m, ParsingState::Currmove, pvb, pv_on, false, rest)
                } else if t == "currmovenumber"@ {
                    run(m, ParsingState::Currmovenumber, pvb, pv_on, false, rest)
                } else if t == "hashfull"@ {
                    run(m, ParsingState::Hashfull, pvb, pv_on, false, rest)
                } else if t == "nps"@ {
                    run(m, ParsingState::Nps, pvb, pv_on, false, rest)
                } else if t == "tbhits"@ {
                    run(m, ParsingState::Tbhits, pvb, pv_on, false, rest)
                } else if t == "cpuload"@ {
                    run(m, ParsingState::Cpuload, pvb, pv_on, false, rest)
                } else if t == "pv"@ {
                    run(m, ParsingState::PvBestmove, pvb, pv_on, false, rest)
                } else {
                    run(m, ParsingState::Unknown, pvb, pv_on, false, rest)
                }
            },
            ParsingState::Score => {
                if t == "cp"@ {
                    run(m, ParsingState::ScoreCp, pvb, pv_on, fk, rest)
                } else if t == "mate"@ {
                    run(m, ParsingState::ScoreMate, pvb, pv_on, fk, rest)
                } else {
                    RunOut::Fail { m, e: ParseErr::ScoreSpec(t) }
                }
            },
            ParsingState::Unknown => run(m, ParsingState::Key, pvb, pv_on, fk, rest),
            ParsingState::Depth => match usize_from_chars(t) {
                Some(n) => run(AnalysisModel { depth: n, ..m }, ParsingState::Key, pvb, pv_on, fk, rest),
                None => RunOut::Fail { m, e: ParseErr::Number("depth"@) },
            },
            ParsingState::Seldepth => match usize_from_chars(t) {
                Some(n) => run(
                    AnalysisModel { seldepth: n, ..m },
                    ParsingState::Key,
                    pvb,
                    pv_on,
                    fk,
                    rest,
                ),
                None => RunOut::Fail { m, e: ParseErr::Number("seldepth"@) },
            },
            ParsingState::Time => match usize_from_chars(t) {
                Some(n) => run(AnalysisModel { time: n, ..m }, ParsingState::Key, pvb, pv_on, fk, rest),
                None => RunOut::Fail { m, e: ParseErr::Number("time"@) },
            },
            ParsingState::Nodes => match u64_from_chars(t) {
                Some(n) => run(AnalysisModel { nodes: n, ..m }, ParsingState::Key, pvb, pv_on, fk, rest),
                None => RunOut::Fail { m, e: ParseErr::Number("nodes"@) },
            },
            ParsingState::Multipv => match usize_from_chars(t) {
                Some(n) => run(AnalysisModel { multipv: n, ..m }, ParsingState::Key, pvb, pv_on, fk, rest),
                None => RunOut::Fail { m, e: ParseErr::Number("multipv"@) },
            },
            ParsingState::ScoreCp => match i32_from_chars(t) {
                Some(v) => run(
                    AnalysisModel { score: Score::Cp(v), ..m },
                    ParsingState::Key,
                    pvb,
                    pv_on,
                    fk,
                    rest,
                ),
                None => RunOut::Fail { m, e: ParseErr::Number("score"@) },
            },
            ParsingState::ScoreMate => match i32_from_chars(t) {
                Some(v) => run(
                    AnalysisModel { score: Score::Mate(v), ..m },
                    ParsingState::Key,
                    pvb,
                    pv_on,
                    fk,
                    rest,
                ),
                None => RunOut::Fail { m, e: ParseErr::Number("score"@) },
            },
            ParsingState::Currmove => run(
                AnalysisModel { currmove: cut_spec(t, UCI_MAX_LENGTH as nat), ..m },
                ParsingState::Key,
                pvb,
                pv_on,
                fk,
                rest,
            ),
            ParsingState::Currmovenumber => match usize_from_chars(t) {
                Some(n) => run(
                    AnalysisModel { currmovenumber: n, ..m },
                    ParsingState::Key,
                    pvb,
                    pv_on,
                    fk,
                    rest,
                ),
                None => RunOut::Fail { m, e: ParseErr::Number("currmovenumber"@) },
            },
            ParsingState::Hashfull => match usize_from_chars(t) {
                Some(n) => run(AnalysisModel { hashfull: n, ..m }, ParsingState::Key, pvb, pv_on, fk, rest),
                None => RunOut::Fail { m, e: ParseErr::Number("hashfull"@) },
            },
            ParsingState::Nps => match u64_from_chars(t) {
                Some(n) => run(AnalysisModel { nps: n, ..m }, ParsingState::Key, pvb, pv_on, fk, rest),
                None => RunOut::Fail { m, e: ParseErr::Number("nps"@) },
            },
            ParsingState::Tbhits => match u64_from_chars(t) {
                Some(n) => run(AnalysisModel { tbhits: n, ..m }, ParsingState::Key, pvb, pv_on, fk, rest),
                None => RunOut::Fail { m, e: ParseErr::Number("tbhits"@) },
            },
            ParsingState::Cpuload => match usize_from_chars(t) {
                Some(n) => run(AnalysisModel { cpuload: n, ..m }, ParsingState::Key, pvb, pv_on, fk, rest),
                None => RunOut::Fail { m, e: ParseErr::Number("cpuload"@) },
            },
            ParsingState::PvBestmove => run(
                AnalysisModel {
                    bestmove: cut_spec(t, UCI_MAX_LENGTH as nat),
                    ponder: Seq::empty(),
                    ..m
                },
                ParsingState::PvPonder,
                pvb + t,
                true,
                fk,
                rest,
            ),
            ParsingState::PvPonder => run(
                AnalysisModel { ponder: cut_spec(t, UCI_MAX_LENGTH as nat), ..m },
                ParsingState::PvRest,
                pvb + seq![' '] + t,
                pv_on,
                fk,
                rest,
            ),
            ParsingState::PvRest => run(m, ParsingState::PvRest, pvb + seq![' '] + t, pv_on, fk, rest),
        }
    }
}

/// The record and the error after parsing one line against the record `m`:
/// the state machine runs over the line's tokens, and on normal completion
/// the accumulated variation is committed, trimmed at a move boundary.
pub open spec fn parse_result(m: AnalysisModel, line: Seq<char>) -> (AnalysisModel, Option<
    ParseErr,
>) {
    match run(m, ParsingState::Info, Seq::<char>::empty(), false, true, split_spec(line, ' ')) {
        RunOut::Early { m: m2 } => (m2, None),
        RunOut::Fail { m: m2, e } => (m2, Some(e)),
        RunOut::Finish { m: m2, pv } => (
            AnalysisModel { pv: trim_spec(pv, ' ', PV_BUFF_SIZE as nat), ..m2 },
            None,
        ),
    }
}

/// The line opens with the `info` keyword.
pub open spec fn is_info_line(line: Seq<char>) -> bool {
    line.take(first_sep(line, ' ')) == "info"@
}

impl AnalysisInfo {
    /// All buffers are well formed.
    pub closed spec fn wf(&self) -> bool {
        &&& self.bestmove.wf()
        &&& self.ponder.wf()
        &&& self.pv.wf()
        &&& self.currmove.wf()
    }

    /// A well-formed record models to buffer contents within capacity.
    pub proof fn lemma_wf_fits(&self)
        requires
            self.wf(),
        ensures
            model_fits(self@),
    {
    }

    /// Create the record of a search that has not reported anything yet.
    pub fn new() -> (r: Self)
        ensures
            r.wf(),
            r@ == default_model(),
    {
        AnalysisInfo {
            done: false,
            bestmove: UciBuff::new(),
            ponder: UciBuff::new(),
            pv: PvBuff::new(),
            depth: 0,
            seldepth: 0,
            time: 0,
            nodes: 0,
            multipv: 0,
            score: Score::Cp(0),
            currmove: UciBuff::new(),
            currmovenumber: 0,
            hashfull: 0,
            nps: 0,
            tbhits: 0,
            cpuload: 0,
            scoretype: ScoreType::Exact,
        }
    }

    /// Render the record in its flat document form.
    pub fn to_serde(&self) -> (r: AnalysisInfoSerde)
        requires
            self.wf(),
        ensures
            r@ == to_serde_spec(self@),
    {
        AnalysisInfoSerde {
            disposition: String::from_str("AnalysisInfo"),
            done: self.done,
            bestmove: self.bestmove.to_opt(),
            ponder: self.ponder.to_opt(),
            pv: self.pv.to_opt(),
            depth: self.depth,
            seldepth: self.seldepth,
            time: self.time,
            nodes: self.nodes,
            multipv: self.multipv,
            score: self.score,
            currmove: self.currmove.to_opt(),
            currmovenumber: self.currmovenumber,
            hashfull: self.hashfull,
            nps: self.nps,
            tbhits: self.tbhits,
            cpuload: self.cpuload,
            scoretype: self.scoretype,
        }
    }

    /// Rebuild a record from its flat document form.
    pub fn from_serde(ais: AnalysisInfoSerde) -> (r: Self)
        ensures
            r.wf(),
            r@ == from_serde_spec(ais@),
    {
        let mut bestmove = UciBuff::new();
        match &ais.bestmove {
            Some(s) => bestmove.set(s.as_str()),
            None => (),
        }
        let mut ponder = UciBuff::new();
        match &ais.ponder {
            Some(s) => ponder.set(s.as_str()),
            None => (),
        }
        let mut pv = PvBuff::new();
        match &ais.pv {
            Some(s) => pv.set(s.as_str()),
            None => (),
        }
        let mut currmove = UciBuff::new();
        match &ais.currmove {
            Some(s) => currmove.set(s.as_str()),
            None => (),
        }
        AnalysisInfo {
            done: ais.done,
            bestmove,
            ponder,
            pv,
            depth: ais.depth,
            seldepth: ais.seldepth,
            time: ais.time,
            nodes: ais.nodes,
            multipv: ais.multipv,
            score: ais.score,
            currmove,
            currmovenumber: ais.currmovenumber,
            hashfull: ais.hashfull,
            nps: ais.nps,
            tbhits: ais.tbhits,
            cpuload: ais.cpuload,
            scoretype: ais.scoretype,
        }
    }

    /// Decode one engine output line into the record.
    ///
    /// A line that does not open with the `info` keyword is ignored with
    /// success.  A free-text key (`string`, `refutation`, `currline`) right
    /// after `info` dismisses the line with success; in any later key
    /// position it is an invalid-key error.  On an error, fields decoded
    /// earlier in the line stay applied and the rest of the line is dropped.
    /// The principal variation is committed only once the whole line was
    /// consumed, trimmed so that no move token is cut in half.
    pub fn parse(&mut self, info: &str) -> (r: Result<(), InfoParseError>)
        requires
            old(self).wf(),
        ensures
            final(self).wf(),
            final(self)@ == parse_result(old(self)@, info@).0,
            (match r {
                Ok(()) => parse_result(old(self)@, info@).1 is None,
                Err(e) => parse_result(old(self)@, info@).1 == Some(e@),
            }),
            !is_info_line(info@) ==> r is Ok && final(self)@ == old(self)@,
    {
        let tokens = tokenize(info, ' ');
        let ghost toks = views_of(tokens@);
        let ghost m0 = self@;
        let mut ps = ParsingState::Info;
        let mut pv_buff = String::new();
        let mut pv_on = false;
        let mut first_key = true;
        let mut i: usize = 0;
        proof {
            assert(toks.skip(0) =~= toks);
            crate::tokens::lemma_split_first(info@, ' ');
        }
        while i < tokens.len()
            invariant
                i <= tokens@.len(),
                m0 == old(self)@,
                toks == views_of(tokens@),
                toks == split_spec(info@, ' '),
                toks.len() == tokens@.len(),
                toks[0] == info@.take(first_sep(info@, ' ')),
                self.wf(),
                run(m0, ParsingState::Info, Seq::<char>::empty(), false, true, toks) == run(
                    self@,
                    ps,
                    pv_buff@,
                    pv_on,
                    first_key,
                    toks.skip(i as int),
                ),
            decreases tokens@.len() - i,
        {
            let token: &str = tokens[i].as_str();
            proof {
                assert(toks.skip(i as int).len() > 0);
                assert(toks.skip(i as int)[0] == token@);
                assert(toks.skip(i as int).skip(1) =~= toks.skip(i as int + 1));
            }
            match ps {
                ParsingState::Info => {
                    if str_eq_str(token, "info") {
                        ps = ParsingState::Key;
                    } else {
                        return Ok(());
                    }
                },
                ParsingState::Key => {
                    if str_eq_str(token, "string") || str_eq_str(token, "refutation")
                        || str_eq_str(token, "currline") {
                        if first_key {
                            return Ok(());
                        } else {
                            return info_parse_error(
                                InfoParseError::InvalidKeyError(String::from_str(token)),
                            );
                        }
                    }
                    if str_eq_str(token, "lowerbound") {
                        self.scoretype = ScoreType::Lowerbound;
                    } else if str_eq_str(token, "upperbound") {
                        self.scoretype = ScoreType::Upperbound;
                    } else if str_eq_str(token, "depth") {
                        ps = ParsingState::Depth;
                    } else if str_eq_str(token, "seldepth") {
                        ps = ParsingState::Seldepth;
                    } else if str_eq_str(token, "time") {
                        ps = ParsingState::Time;
                    } else if str_eq_str(token, "nodes") {
                        ps = ParsingState::Nodes;
                    } else if str_eq_str(token, "multipv") {
                        ps = ParsingState::Multipv;
                    } else if str_eq_str(token, "score") {
                        self.scoretype = ScoreType::Exact;
                        ps = ParsingState::Score;
                    } else if str_eq_str(token, "currmove") {
                        ps = ParsingState::Currmove;
                    } else if str_eq_str(token, "currmovenumber") {
                        ps = ParsingState::Currmovenumber;
                    } else if str_eq_str(token, "hashfull") {
                        ps = ParsingState::Hashfull;
                    } else if str_eq_str(token, "nps") {
                        ps = ParsingState::Nps;
                    } else if str_eq_str(token, "tbhits") {
                        ps = ParsingState::Tbhits;
                    } else if str_eq_str(token, "cpuload") {
                        ps = ParsingState::Cpuload;
                    } else if str_eq_str(token, "pv") {
                        ps = ParsingState::PvBestmove;
                    } else {
                        ps = ParsingState::Unknown;
                    }
                    first_key = false;
                },
                ParsingState::Score => {
                    if str_eq_str(token, "cp") {
                        ps = ParsingState::ScoreCp;
                    } else if str_eq_str(token, "mate") {
                        ps = ParsingState::ScoreMate;
                    } else {
                        return info_parse_error(
                            InfoParseError::InvalidScoreSpecifier(String::from_str(token)),
                        );
                    }
                },
                ParsingState::Unknown => {
                    // tolerate the unknown key, assuming it had a single
                    // token of argument
                    ps = ParsingState::Key;
                },
                ParsingState::Depth => {
                    match parse_usize(token) {
                        Some(depth) => {
                            self.depth = depth;
                            ps = ParsingState::Key;
                        },
                        None => {
                            return parse_number_error("depth");
                        },
                    }
                },
                ParsingState::Seldepth => {
                    match parse_usize(token) {
                        Some(seldepth) => {
                            self.seldepth = seldepth;
                            ps = ParsingState::Key;
                        },
                        None => {
                            return parse_number_error("seldepth");
                        },
                    }
                },
                ParsingState::Time => {
                    match parse_usize(token) {
                        Some(time) => {
                            self.time = time;
                            ps = ParsingState::Key;
                        },
                        None => {
                            return parse_number_error("time");
                        },
                    }
                },
                ParsingState::Nodes => {
                    match parse_u64(token) {
                        Some(nodes) => {
                            self.nodes = nodes;
                            ps = ParsingState::Key;
                        },
                        None => {
                            return parse_number_error("nodes");
                        },
                    }
                },
                ParsingState::Multipv => {
                    match parse_usize(token) {
                        Some(multipv) => {
                            self.multipv = multipv;
                            ps = ParsingState::Key;
                        },
                        None => {
                            return parse_number_error("multipv");
                        },
                    }
                },
                ParsingState::ScoreCp => {
                    match parse_i32(token) {
                        Some(score_cp) => {
                            self.score = Score::Cp(score_cp);
                            ps = ParsingState::Key;
                        },
                        None => {
                            return parse_number_error("score");
                        },
                    }
                },
                ParsingState::ScoreMate => {
                    match parse_i32(token) {
                        Some(score_mate) => {
                            self.score = Score::Mate(score_mate);
                            ps = ParsingState::Key;
                        },
                        None => {
                            return parse_number_error("score");
                        },
                    }
                },
                ParsingState::Currmove => {
                    self.currmove.set(token);
                    ps = ParsingState::Key;
                },
                ParsingState::Currmovenumber => {
                    match parse_usize(token) {
                        Some(currmovenumber) => {
                            self.currmovenumber = currmovenumber;
                            ps = ParsingState::Key;
                        },
                        None => {
                            return parse_number_error("currmovenumber");
                        },
                    }
                },
                ParsingState::Hashfull => {
                    match parse_usize(token) {
                        Some(hashfull) => {
                            self.hashfull = hashfull;
                            ps = ParsingState::Key;
                        },
                        None => {
                            return parse_number_error("hashfull");
                        },
                    }
                },
                ParsingState::Nps => {
                    match parse_u64(token) {
                        Some(nps) => {
                            self.nps = nps;
                            ps = ParsingState::Key;
                        },
                        None => {
                            return parse_number_error("nps");
                        },
                    }
                },
                ParsingState::Tbhits => {
                    match parse_u64(token) {
                        Some(tbhits) => {
                            self.tbhits = tbhits;
                            ps = ParsingState::Key;
                        },
                        None => {
                            return parse_number_error("tbhits");
                        },
                    }
                },
                ParsingState::Cpuload => {
                    match parse_usize(token) {
                        Some(cpuload) => {
                            self.cpuload = cpuload;
                            ps = ParsingState::Key;
                        },
                        None => {
                            return parse_number_error("cpuload");
                        },
                    }
                },
                ParsingState::PvBestmove => {
                    pv_buff.append(token);
                    self.bestmove.set(token);
                    self.ponder.reset();
                    pv_on = true;
                    ps = ParsingState::PvPonder;
                },
                ParsingState::PvPonder => {
                    proof {
                        reveal_strlit(" ");
                        assert(" "@ =~= seq![' ']);
                    }
                    pv_buff.append(" ");
                    pv_buff.append(token);
                    self.ponder.set(token);
                    ps = ParsingState::PvRest;
                },
                ParsingState::PvRest => {
                    proof {
                        reveal_strlit(" ");
                        assert(" "@ =~= seq![' ']);
                    }
                    pv_buff.append(" ");
                    pv_buff.append(token);
                },
            }
            i = i + 1;
        }
        proof {
            assert(toks.skip(i as int) =~= Seq::<Seq<char>>::empty());
        }
        let ghost m_end = self@;
        self.pv.set_trim(pv_buff.as_str(), ' ');
        proof {
            assert(self@ == AnalysisModel {
                pv: trim_spec(pv_buff@, ' ', PV_BUFF_SIZE as nat),
                ..m_end
            });
        }
        Ok(())
    }

    /// The best move, absent while none was reported.
    pub fn bestmove(&self) -> (r: Option<String>)
        requires
            self.wf(),
        ensures
            match r {
                None => self@.bestmove.len() == 0,
                Some(s) => s@ == self@.bestmove && self@.bestmove.len() > 0,
            },
    {
        self.bestmove.to_opt()
    }

    /// The ponder move, absent while none was reported.
    pub fn ponder(&self) -> (r: Option<String>)
        requires
            self.wf(),
        ensures
            match r {
                None => self@.ponder.len() == 0,
                Some(s) => s@ == self@.ponder && self@.ponder.len() > 0,
            },
    {
        self.ponder.to_opt()
    }

    /// The principal variation, absent while none was reported.
    pub fn pv(&self) -> (r: Option<String>)
        requires
            self.wf(),
        ensures
            match r {
                None => self@.pv.len() == 0,
                Some(s) => s@ == self@.pv && self@.pv.len() > 0,
            },
    {
        self.pv.to_opt()
    }

    /// The move currently searched, absent while none was reported.
    pub fn currmove(&self) -> (r: Option<String>)
        requires
            self.wf(),
        ensures
            match r {
                None => self@.currmove.len() == 0,
                Some(s) => s@ == self@.currmove && self@.currmove.len() > 0,
            },
    {
        self.currmove.to_opt()
    }
}

} // verus!
