//! The command dispatcher: from the parsed flags to the steps an invocation
//! performs, in their fixed order.

use vstd::prelude::*;
use vstd::string::StringExecFns;

verus! {

/// The flags and the optional name of one invocation.
pub struct Args {
    /// echo the parsed arguments first
    pub verbose: bool,
    /// a name to greet, when present
    pub name: Option<String>,
    /// run the init operation
    pub init: bool,
    /// let init overwrite an existing file
    pub force: bool,
    /// run the run operation
    pub run: bool,
}

/// One step of an invocation's work.
pub enum Step {
    /// echo the parsed arguments
    Echo,
    /// run the init operation, overwriting when `force` holds
    Init { force: bool },
    /// run the run operation
    Run,
    /// print the greeting for this name
    Greet { name: String },
}

/// The steps an invocation performs, in order: the verbose echo, then init,
/// then run, then the greeting — each only when asked for.  No combination
/// of flags is rejected, and when no name is given no greeting is printed.
pub open spec fn plan_spec(args: Args) -> Seq<Step> {
    (if args.verbose {
        seq![Step::Echo]
    } else {
        Seq::<Step>::empty()
    }) + (if args.init {
        seq![Step::Init { force: args.force }]
    } else {
        Seq::<Step>::empty()
    }) + (if args.run {
        seq![Step::Run]
    } else {
        Seq::<Step>::empty()
    }) + (match args.name {
        Option::Some(name) => seq![Step::Greet { name }],
        Option::None => Seq::<Step>::empty(),
    })
}

/// Computes the plan, as `plan_spec` describes.
pub fn plan(args: Args) -> (r: Vec<Step>)
    ensures
        r@ == plan_spec(args),
{
    let ghost given = args;
    let Args { verbose, name, init, force, run } = args;
    let mut steps: Vec<Step> = Vec::new();
    if verbose {
        steps.push(Step::Echo);
    }
    if init {
        steps.push(Step::Init { force });
    }
    if run {
        steps.push(Step::Run);
    }
    match name {
        Option::Some(n) => steps.push(Step::Greet { name: n }),
        Option::None => (),
    }
    proof {
        assert(steps@ =~= plan_spec(given));
    }
    steps
}

/// Whether a step touches the configuration file.
pub open spec fn touches_file(s: Step) -> bool {
    s is Init || s is Run
}

/// An invocation that asks for neither init nor run plans no step that
/// touches the configuration file: it performs no file work at all.
pub proof fn lemma_no_file_step_without_request(args: Args)
    requires
        !args.init,
        !args.run,
    ensures
        forall|i: int|
            0 <= i < plan_spec(args).len() ==> !touches_file(#[trigger] plan_spec(args)[i]),
{
    assert forall|i: int|
        0 <= i < plan_spec(args).len() implies !touches_file(plan_spec(args)[i]) by {
        let s = plan_spec(args)[i];
        assert(s is Echo || s is Greet);
    }
}

/// The greeting for a name.
pub open spec fn greeting_spec(name: Seq<char>) -> Seq<char> {
    "Hello "@ + name + " (from fleetr)!"@
}

/// Builds the greeting, as `greeting_spec` describes.
pub fn greeting(name: &str) -> (r: String)
    ensures
        r@ == greeting_spec(name@),
{
    let mut s = "Hello ".to_owned();
    s.append(name);
    s.append(" (from fleetr)!");
    s
}

} // verus!
