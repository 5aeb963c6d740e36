//! Shader sources, and the rule by which a compile or link step of a shader
//! succeeds.

use vstd::prelude::*;

verus! {

/// The sources of a shader program: a vertex and a fragment stage.
pub struct ShaderBuilder {
    vert_src: String,
    frag_src: String,
}

/// Abstract value of a shader builder: its two sources.
pub ghost struct ShaderSources {
    pub vert: Seq<char>,
    pub frag: Seq<char>,
}

impl View for ShaderBuilder {
    type V = ShaderSources;

    closed spec fn view(&self) -> ShaderSources {
        ShaderSources { vert: self.vert_src@, frag: self.frag_src@ }
    }
}

impl ShaderBuilder {
    /// A builder holding the text of the given sources.
    pub fn new(vert_src: &str, frag_src: &str) -> (b: Self)
        ensures
            b@ == (ShaderSources { vert: vert_src@, frag: frag_src@ }),
    {
        Self { vert_src: vert_src.to_owned(), frag_src: frag_src.to_owned() }
    }

    /// The vertex stage's source.
    pub fn vert_src(&self) -> (s: &str)
        ensures
            s@ == self@.vert,
    {
        self.vert_src.as_str()
    }

    /// The fragment stage's source.
    pub fn frag_src(&self) -> (s: &str)
        ensures
            s@ == self@.frag,
    {
        self.frag_src.as_str()
    }
}

/// The result of a compile or link step of a shader: the compiled object when
/// the step succeeded, and otherwise the step's log as the error.
pub open spec fn step_outcome_spec<K>(object: K, succeeded: bool, log: Seq<char>) -> Result<K, Seq<char>> {
    if succeeded {
        Ok(object)
    } else {
        Err(log)
    }
}

/// A compile or link step is decided by its status alone: whatever its log
/// says, a failed step is an error carrying the log, and a successful one gives
/// the object.
pub proof fn lemma_step_outcome_by_status<K>(object: K, log: Seq<char>)
    ensures
        step_outcome_spec(object, false, log) == Err::<K, Seq<char>>(log),
        step_outcome_spec(object, true, log) == Ok::<K, Seq<char>>(object),
{
}

/// Decides a compile or link step of a shader from its status and log: the
/// object when the status says success, else the log as the error. (A success
/// with a non-empty log is still a success; the log is only informative.)
pub fn step_outcome<K>(object: K, succeeded: bool, log: String) -> (r: Result<K, String>)
    ensures
        match r {
            Ok(o) => step_outcome_spec(object, succeeded, log@) == Ok::<K, Seq<char>>(o),
            Err(e) => step_outcome_spec(object, succeeded, log@) == Err::<K, Seq<char>>(e@),
        },
{
    if !succeeded {
        return Err(log);
    }
    Ok(object)
}

} // verus!
