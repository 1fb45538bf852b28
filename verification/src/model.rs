//! The ghost model of a prepared expression: what will be asked of the
//! operating system when the expression is started. The trusted
//! constructors' contracts maintain this model, the expression builders
//! prove that it lists exactly the pipeline's stages, and the execution
//! entry points hand it back, so that a result is tied to what was given
//! to the OS.

use vstd::prelude::*;

verus! {

/// The arguments of a stage, as the character sequences they spell.
pub open spec fn views_of(args: Seq<String>) -> Seq<Seq<char>> {
    args.map_values(|a: String| a@)
}

/// One stage as prepared: the program, its arguments in order, the
/// effective working directory, and the environment overrides the stage
/// will receive on top of the inherited environment.
pub ghost struct StageModel {
    pub program: Seq<char>,
    pub args: Seq<Seq<char>>,
    pub dir: Option<Seq<char>>,
    pub env: Map<Seq<char>, Seq<char>>,
}

/// Where one of the two output streams of a prepared expression goes:
/// inherited from this process, collected in memory, or sent to an OS
/// pipe's write end.
pub ghost enum OutDest {
    Inherit,
    Capture,
    Piped,
}

/// A prepared expression: its stages in spawn order — stage `i`'s standard
/// output feeds stage `i + 1`'s standard input — the destination of the
/// pipeline's two output streams, and whether a non-zero exit status is
/// reported in the output rather than turned into an error.
pub ghost struct ExprModel {
    pub stages: Seq<StageModel>,
    pub stdout: OutDest,
    pub stderr: OutDest,
    pub unchecked: bool,
}

} // verus!
