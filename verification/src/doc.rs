use vstd::prelude::*;

use crate::process::{
    exclusion_flags, member_filter_skips, member_skipped, skip_notice, workspace_args,
};
use crate::text::views_of;

verus! {

/// The build target of a documentation run.
#[derive(Clone, Copy, PartialEq, Eq, Structural, Debug)]
pub enum Target {
    Workspace,
    Crates,
    Examples,
    AllPackages,
}

/// The documentation subcommands.
#[derive(Clone, Copy, PartialEq, Eq, Structural, Debug)]
pub enum DocCommand {
    Build,
}

/// The arguments of a documentation run: the target, the excluded members,
/// and the members to include exclusively.
pub struct DocCmdArgs {
    pub target: Target,
    pub exclude: Vec<String>,
    pub only: Vec<String>,
    pub command: DocCommand,
}

/// One step of a documentation build plan: a labelled log group holding
/// either a skip notice or one command to run, with the message to report
/// should that command fail.
#[derive(Debug, PartialEq, Eq)]
pub struct DocStep {
    pub label: String,
    pub skipped: bool,
    pub notice: String,
    pub args: Vec<String>,
    pub error_msg: String,
}

/// The mathematical model of a `DocStep`.
pub ghost struct DocStepModel {
    pub label: Seq<char>,
    pub skipped: bool,
    pub notice: Seq<char>,
    pub args: Seq<Seq<char>>,
    pub error_msg: Seq<char>,
}

impl View for DocStep {
    type V = DocStepModel;

    open spec fn view(&self) -> DocStepModel {
        DocStepModel {
            label: self.label@,
            skipped: self.skipped,
            notice: self.notice@,
            args: views_of(self.args@),
            error_msg: self.error_msg@,
        }
    }
}

/// The models of a plan's steps.
pub open spec fn steps_view(v: Seq<DocStep>) -> Seq<DocStepModel> {
    v.map_values(|s: DocStep| s@)
}

/// The single step of a workspace-wide documentation build: one command
/// over the whole workspace, the excluded members turned into exclusion
/// flag pairs.
pub open spec fn workspace_doc_step(excluded: Seq<Seq<char>>) -> DocStepModel {
    DocStepModel {
        label: "Build Workspace documentation"@,
        skipped: false,
        notice: Seq::empty(),
        args: seq!["doc"@, "--workspace"@, "--color=always"@] + exclusion_flags(excluded),
        error_msg: "Workspace documentation build failed"@,
    }
}

/// The step of one member's documentation build: a member the filter skips
/// gets a skip notice inside its own group; any other member gets its own
/// build command.
pub open spec fn member_doc_step(
    m: Seq<char>,
    excluded: Seq<Seq<char>>,
    only: Seq<Seq<char>>,
) -> DocStepModel {
    if member_skipped(m, excluded, only) {
        DocStepModel {
            label: "Doc Build: "@ + m,
            skipped: true,
            notice: skip_notice(m),
            args: Seq::empty(),
            error_msg: Seq::empty(),
        }
    } else {
        DocStepModel {
            label: "Doc Build: "@ + m,
            skipped: false,
            notice: Seq::empty(),
            args: seq!["doc"@, "-p"@, m, "--color=always"@],
            error_msg: "Format check execution failed for "@ + m,
        }
    }
}

/// One step per member, in the members' order.
pub open spec fn member_doc_steps(
    members: Seq<Seq<char>>,
    excluded: Seq<Seq<char>>,
    only: Seq<Seq<char>>,
) -> Seq<DocStepModel> {
    members.map_values(|m: Seq<char>| member_doc_step(m, excluded, only))
}

/// The steps of a documentation build: one workspace-wide command, one step
/// per crate or example, or both member lists in turn.
pub open spec fn doc_build_steps(
    target: Target,
    excluded: Seq<Seq<char>>,
    only: Seq<Seq<char>>,
    crates: Seq<Seq<char>>,
    examples: Seq<Seq<char>>,
) -> Seq<DocStepModel> {
    match target {
        Target::Workspace => seq![workspace_doc_step(excluded)],
        Target::Crates => member_doc_steps(crates, excluded, only),
        Target::Examples => member_doc_steps(examples, excluded, only),
        Target::AllPackages => member_doc_steps(crates, excluded, only) + member_doc_steps(
            examples,
            excluded,
            only,
        ),
    }
}

fn member_steps(members: &Vec<String>, excluded: &Vec<String>, only: &Vec<String>) -> (r: Vec<
    DocStep,
>)
    ensures
        steps_view(r@) == member_doc_steps(
            views_of(members@),
            views_of(excluded@),
            views_of(only@),
        ),
{
    let mut out: Vec<DocStep> = Vec::new();
    let mut i: usize = 0;
    proof {
        assert(steps_view(out@) =~= member_doc_steps(
            views_of(members@).take(0),
            views_of(excluded@),
            views_of(only@),
        ));
    }
    while i < members.len()
        invariant
            i <= members@.len(),
            steps_view(out@) == member_doc_steps(
                views_of(members@).take(i as int),
                views_of(excluded@),
                views_of(only@),
            ),
        decreases members@.len() - i,
    {
        let ghost ms = views_of(members@);
        let ghost exs = views_of(excluded@);
        let ghost onls = views_of(only@);
        let m = &members[i];
        let mut label = String::from_str("Doc Build: ");
        label.append(m.as_str());
        let step: DocStep = if member_filter_skips(m, excluded, only) {
            let mut notice = String::from_str("Skip '");
            notice.append(m.as_str());
            notice.append("' because it has been excluded!");
            DocStep { label, skipped: true, notice, args: Vec::new(), error_msg: String::new() }
        } else {
            let mut args: Vec<String> = Vec::new();
            args.push(String::from_str("doc"));
            args.push(String::from_str("-p"));
            args.push(m.clone());
            args.push(String::from_str("--color=always"));
            let mut error_msg = String::from_str("Format check execution failed for ");
            error_msg.append(m.as_str());
            DocStep { label, skipped: false, notice: String::new(), args, error_msg }
        };
        proof {
            assert(ms.len() == members@.len());
            assert(views_of(members@)[i as int] == members@[i as int]@);
            assert(step@.args =~= member_doc_step(ms[i as int], exs, onls).args);
            assert(step@ == member_doc_step(ms[i as int], exs, onls));
        }
        out.push(step);
        proof {
            let f = |m: Seq<char>| member_doc_step(m, exs, onls);
            ms.lemma_map_take_succ(f, i as int);
            assert(steps_view(out@) =~= member_doc_steps(ms.take(i + 1), exs, onls));
        }
        i += 1;
    }
    proof {
        assert(views_of(members@).take(members@.len() as int) =~= views_of(members@));
    }
    out
}

/// The plan of a documentation build for a target: the steps to run, in
/// order, stopping at the first failing one.
pub fn run_documentation_build(
    target: &Target,
    excluded: &Vec<String>,
    only: &Vec<String>,
    crates: &Vec<String>,
    examples: &Vec<String>,
) -> (r: Vec<DocStep>)
    ensures
        steps_view(r@) == doc_build_steps(
            *target,
            views_of(excluded@),
            views_of(only@),
            views_of(crates@),
            views_of(examples@),
        ),
{
    match target {
        Target::Workspace => {
            let mut args: Vec<String> = Vec::new();
            args.push(String::from_str("doc"));
            args.push(String::from_str("--workspace"));
            args.push(String::from_str("--color=always"));
            let final_args = workspace_args(args, excluded);
            let step = DocStep {
                label: String::from_str("Build Workspace documentation"),
                skipped: false,
                notice: String::new(),
                args: final_args,
                error_msg: String::from_str("Workspace documentation build failed"),
            };
            let mut out: Vec<DocStep> = Vec::new();
            proof {
                assert(step@.args =~= workspace_doc_step(views_of(excluded@)).args);
                assert(step@ == workspace_doc_step(views_of(excluded@)));
            }
            out.push(step);
            proof {
                assert(steps_view(out@) =~= seq![workspace_doc_step(views_of(excluded@))]);
            }
            out
        },
        Target::Crates => member_steps(crates, excluded, only),
        Target::Examples => member_steps(examples, excluded, only),
        Target::AllPackages => {
            let mut out = member_steps(crates, excluded, only);
            let ghost head = out@;
            let mut tail = member_steps(examples, excluded, only);
            let ghost tl = tail@;
            out.append(&mut tail);
            proof {
                assert(steps_view(head + tl) =~= steps_view(head) + steps_view(tl));
            }
            out
        },
    }
}

/// The warning notice logged when an inclusive-only list is given for a
/// workspace-wide run, where it is ignored.
pub open spec fn only_ignored_for_workspace(target: Target, only: Seq<Seq<char>>) -> bool {
    target is Workspace && only.len() > 0
}

/// The full plan of a documentation command: whether the inclusive-only
/// list is ignored and must be warned about, and the steps to run.
pub struct DocPlan {
    pub warn_only_ignored: bool,
    pub steps: Vec<DocStep>,
}

/// Turns a documentation command into its plan: the one subcommand builds
/// documentation for the chosen target.
pub fn handle_command(args: &DocCmdArgs, crates: &Vec<String>, examples: &Vec<String>) -> (r:
    DocPlan)
    ensures
        r.warn_only_ignored == only_ignored_for_workspace(args.target, views_of(args.only@)),
        steps_view(r.steps@) == doc_build_steps(
            args.target,
            views_of(args.exclude@),
            views_of(args.only@),
            views_of(crates@),
            views_of(examples@),
        ),
{
    let warn = match args.target {
        Target::Workspace => args.only.len() > 0,
        _ => false,
    };
    let steps = match args.command {
        DocCommand::Build => run_documentation_build(
            &args.target,
            &args.exclude,
            &args.only,
            crates,
            examples,
        ),
    };
    DocPlan { warn_only_ignored: warn, steps }
}

} // verus!
