//! The plan compiler: turns a configuration document plus command-line
//! overrides into the set of `helm` invocations to run and the files their
//! output goes to.
use vstd::prelude::*;
use vstd::string::*;

use crate::command_map::CommandMap;
use crate::config::{opt_strings, Config, Deployment};
use crate::error::TemplexerError;
use crate::pre_commands::{index_map_entries, index_map_insert, index_map_new};
use crate::text::extend_strings;
use crate::RenderCmdOpts;

verus! {

/// Whether `pattern` is a valid regular expression. Names the success of
/// `regex::Regex::new`.
pub uninterp spec fn regex_new_ok(pattern: Seq<char>) -> bool;

/// Whether the regular expression `pattern` matches anywhere inside `text`
/// (an unanchored search). Names the result of `regex::Regex::is_match`.
pub uninterp spec fn regex_matches(pattern: Seq<char>, text: Seq<char>) -> bool;

/// Relies on `regex::Regex::new` and `regex::Regex::is_match`: compiling a
/// pattern succeeds exactly when the pattern is a valid regular expression,
/// and a match is an unanchored search over `text` that depends on the
/// pattern and the text alone.
#[verifier::external_body]
fn regex_match(pattern: &str, text: &str) -> (r: Result<bool, String>)
    ensures
        r is Ok <==> regex_new_ok(pattern@),
        r is Ok ==> r->Ok_0 == regex_matches(pattern@, text@),
{
    match regex::Regex::new(pattern) {
        Ok(re) => Ok(re.is_match(text)),
        Err(e) => Err(format!("{}", e)),
    }
}

/// The `--values=<path>` token for one value file.
pub open spec fn values_flag(path: Seq<char>) -> Seq<char> {
    "--values="@ + path
}

/// One `--values` token per file, in file order.
pub open spec fn values_flags(o: Option<Vec<String>>) -> Seq<Seq<char>> {
    opt_strings(o).map_values(|p: Seq<char>| values_flag(p))
}

/// The `--namespace=<namespace>` token.
pub open spec fn namespace_flag(namespace: Seq<char>) -> Seq<char> {
    "--namespace="@ + namespace
}

/// One trailing `| <fragment>` token per pipe fragment, in the given order.
pub open spec fn pipe_tokens(o: Option<Vec<String>>) -> Seq<Seq<char>> {
    opt_strings(o).map_values(|p: Seq<char>| "| "@ + p)
}

/// The document-level part of every command: verb and sub-verb, the
/// document's release name, the chart, the namespace flag if present, the
/// document's value files, and the document's additional options.
pub open spec fn document_cmd(cfg: Config) -> Seq<Seq<char>> {
    seq!["helm"@, "template"@, cfg.release_name@, cfg.chart@] + (match cfg.namespace {
        Some(ns) => seq![namespace_flag(ns@)],
        None => Seq::<Seq<char>>::empty(),
    }) + values_flags(cfg.values) + opt_strings(cfg.additional_options)
}

/// The argument list shared by every deployment: the document-level tokens
/// followed by the command-line additional options. Deployment-level tokens
/// come after all of these.
pub open spec fn base_cmd(cfg: Config, opts: RenderCmdOpts) -> Seq<Seq<char>> {
    document_cmd(cfg) + opt_strings(opts.additional_options)
}

/// The release name used for one deployment: its own override if present,
/// else the document's.
pub open spec fn effective_release_name(cfg: Config, d: Deployment) -> Seq<char> {
    match d.release_name {
        Some(n) => n@,
        None => cfg.release_name@,
    }
}

/// The full argument list compiled for one deployment: the shared base with
/// the release-name slot overwritten, then the deployment's value files and
/// options, then the pipe tokens.
pub open spec fn deployment_cmd(cfg: Config, opts: RenderCmdOpts, d: Deployment) -> Seq<Seq<char>> {
    base_cmd(cfg, opts).update(2, effective_release_name(cfg, d)) + values_flags(d.values)
        + opt_strings(d.additional_options) + pipe_tokens(opts.pipe)
}

/// Where the rendered manifest of one deployment is written:
/// `<outputPath>/<name>/<effectiveReleaseName>/manifest.yaml`.
pub open spec fn output_file(cfg: Config, d: Deployment) -> Seq<char> {
    cfg.output_path@ + "/"@ + d.name@ + "/"@ + effective_release_name(cfg, d) + "/manifest.yaml"@
}

/// Whether the filter override lets `d` through: no filter, or a match of
/// the deployment's name.
pub open spec fn passes_filter(opts: RenderCmdOpts, d: Deployment) -> bool {
    match opts.filter {
        Some(f) => regex_matches(f@, d.name@),
        None => true,
    }
}

/// Whether `d` receives a command in the plan: the filter lets it through
/// and it is not disabled.
pub open spec fn deployment_planned(opts: RenderCmdOpts, d: Deployment) -> bool {
    passes_filter(opts, d) && d.enabled != Some(false)
}

/// The command table compiled from the first `n` deployments, keyed by
/// deployment name; a later deployment of the same name overwrites the
/// earlier entry.
pub open spec fn planned_commands(cfg: Config, opts: RenderCmdOpts, n: int) -> Map<
    Seq<char>,
    (Seq<char>, Seq<Seq<char>>),
>
    decreases n,
{
    if n <= 0 {
        Map::empty()
    } else {
        let m = planned_commands(cfg, opts, n - 1);
        let d = cfg.deployments@[n - 1];
        if deployment_planned(opts, d) {
            m.insert(d.name@, (output_file(cfg, d), deployment_cmd(cfg, opts, d)))
        } else {
            m
        }
    }
}

/// The pre-commands of a plan: exactly one dependency-update command when it
/// was requested, nothing otherwise.
pub open spec fn pre_commands_of(cfg: Config, opts: RenderCmdOpts) -> Seq<
    (Seq<char>, Seq<Seq<char>>),
> {
    if opts.update_dependencies {
        seq![
            (
                "helm-dependency-update"@,
                seq!["helm"@, "dependencies"@, "update"@, cfg.chart@],
            ),
        ]
    } else {
        Seq::empty()
    }
}

/// Whether compiling `cfg` under `opts` succeeds: always, except when a
/// filter is given, it is not a valid regular expression, and there is at
/// least one deployment to hold it against.
pub open spec fn plan_compiles(cfg: Config, opts: RenderCmdOpts) -> bool {
    cfg.enabled == Some(false) || match opts.filter {
        Some(f) => cfg.deployments@.len() == 0 || regex_new_ok(f@),
        None => true,
    }
}

/// Plan which contains all commands to be executed.
/// Can be skipped if the config is disabled at the top level.
/// Disabled deployments are not added to the plan.
#[derive(Debug)]
pub struct Plan {
    /// Skip this plan; set to true if the config is disabled on the top level
    pub skip: bool,
    /// Commands to be executed in order of appearance before running
    /// `self.commands`. This field uses an IndexMap to guarantee order of
    /// iteration.
    pub pre_commands: indexmap::IndexMap<
        String,
        Vec<String>,
        std::collections::hash_map::RandomState,
    >,
    /// Commands to be executed on the host system, keyed by deployment name.
    pub commands: CommandMap,
}

/// The render sub command: compiles a plan per input file and executes it.
pub struct RenderCmd {
    pub opts: RenderCmdOpts,
}

impl Plan {
    /// The pre-command lines to run before any deployment command, in map
    /// insertion order: each entry's identifier and its joined shell command
    /// line.
    pub fn pre_command_lines(&self) -> (r: Vec<(String, String)>)
        ensures
            r.deep_view() == index_map_entries(self.pre_commands).map_values(
                |e: (Seq<char>, Seq<Seq<char>>)| (e.0, crate::text::join_spaces(e.1)),
            ),
    {
        let entries = crate::pre_commands::index_map_entry_list(&self.pre_commands);
        let ghost entries_v = index_map_entries(self.pre_commands);
        let mut out: Vec<(String, String)> = Vec::new();
        let mut i: usize = 0;
        while i < entries.len()
            invariant
                i <= entries@.len(),
                entries.deep_view() == entries_v,
                entries@.len() == entries_v.len(),
                out@.len() == i,
                forall|k: int|
                    0 <= k < i ==> (#[trigger] out@[k]).0@ == entries_v[k].0 && out@[k].1@
                        == crate::text::join_spaces(entries_v[k].1),
            decreases entries@.len() - i,
        {
            proof {
                assert(entries.deep_view()[i as int] == entries@[i as int].deep_view());
            }
            let line = crate::text::join_command(&entries[i].1);
            out.push((entries[i].0.clone(), line));
            i = i + 1;
        }
        proof {
            let target = entries_v.map_values(
                |e: (Seq<char>, Seq<Seq<char>>)| (e.0, crate::text::join_spaces(e.1)),
            );
            assert forall|k: int| 0 <= k < out@.len() implies #[trigger] out.deep_view()[k]
                == target[k] by {
                assert(out@[k].0@ == entries_v[k].0);
            }
            assert(out.deep_view() =~= target);
        }
        out
    }

    /// One job per planned deployment: its name, the output file path, and
    /// the joined shell command line. The order in which the jobs come
    /// carries no meaning.
    pub fn render_jobs(&self) -> (r: Vec<(String, String, String)>)
        ensures
            r@.len() == self.commands.entry_seq().len(),
            forall|k: int|
                0 <= k < r@.len() ==> {
                    let e = self.commands.entry_seq()[k];
                    (#[trigger] r@[k]).0@ == e.0@ && r@[k].1@ == e.1.0@ && r@[k].2@
                        == crate::text::join_spaces(e.1.1.deep_view())
                },
    {
        let entries = self.commands.entry_list();
        let mut out: Vec<(String, String, String)> = Vec::new();
        let mut i: usize = 0;
        while i < entries.len()
            invariant
                i <= entries@.len(),
                entries@ == self.commands.entry_seq(),
                out@.len() == i,
                forall|k: int|
                    0 <= k < i ==> {
                        let e = self.commands.entry_seq()[k];
                        (#[trigger] out@[k]).0@ == e.0@ && out@[k].1@ == e.1.0@ && out@[k].2@
                            == crate::text::join_spaces(e.1.1.deep_view())
                    },
            decreases entries@.len() - i,
        {
            let line = crate::text::join_command(&entries[i].1.1);
            out.push((entries[i].0.clone(), entries[i].1.0.clone(), line));
            i = i + 1;
        }
        out
    }
}

/// Appends one `<prefix><item>` token per item to `dst`, in order.
fn push_prefixed_all(dst: &mut Vec<String>, prefix: &str, items: &Option<Vec<String>>)
    ensures
        final(dst).deep_view() == old(dst).deep_view() + opt_strings(*items).map_values(
            |p: Seq<char>| prefix@ + p,
        ),
{
    let ghost orig = dst@;
    match items {
        Some(vs) => {
            let mut i: usize = 0;
            while i < vs.len()
                invariant
                    i <= vs@.len(),
                    dst@.len() == orig.len() + i,
                    forall|k: int| 0 <= k < orig.len() ==> dst@[k] == orig[k],
                    forall|k: int|
                        0 <= k < i ==> (#[trigger] dst@[orig.len() + k])@ == prefix@ + vs@[k]@,
                decreases vs@.len() - i,
            {
                let mut token = String::from_str(prefix);
                token.append(vs[i].as_str());
                dst.push(token);
                i = i + 1;
            }
        },
        None => (),
    }
    proof {
        let target = old(dst).deep_view() + opt_strings(*items).map_values(
            |p: Seq<char>| prefix@ + p,
        );
        assert forall|k: int| 0 <= k < dst@.len() implies #[trigger] dst.deep_view()[k]
            == target[k] by {
            if k >= orig.len() {
                assert(dst@[orig.len() + (k - orig.len())]@ == prefix@ + opt_strings(
                    *items,
                )[k - orig.len()]);
            }
        }
        assert(dst.deep_view() =~= target);
    }
}

/// A copy of a token list.
fn clone_strings(src: &Vec<String>) -> (r: Vec<String>)
    ensures
        r.deep_view() == src.deep_view(),
{
    let mut out: Vec<String> = Vec::new();
    extend_strings(&mut out, src);
    proof {
        assert(out.deep_view() =~= src.deep_view());
    }
    out
}

/// Compiles the command of one deployment: the output file path and the full
/// argument list, built from the shared base tokens.
fn compile_deployment(
    base: &Vec<String>,
    cfg: &Config,
    opts: &RenderCmdOpts,
    d: &Deployment,
) -> (r: (String, Vec<String>))
    requires
        base.deep_view() == base_cmd(*cfg, *opts),
    ensures
        r.0@ == output_file(*cfg, *d),
        r.1.deep_view() == deployment_cmd(*cfg, *opts, *d),
{
    let ghost base_v = base_cmd(*cfg, *opts);
    let ghost dep_tail = values_flags(d.values) + opt_strings(d.additional_options);
    let mut cmd = clone_strings(base);
    push_prefixed_all(&mut cmd, "--values=", &d.values);
    match &d.additional_options {
        Some(os) => extend_strings(&mut cmd, os),
        None => (),
    }
    proof {
        assert(values_flags(d.values) =~= opt_strings(d.values).map_values(
            |p: Seq<char>| "--values="@ + p,
        ));
        assert(cmd.deep_view() =~= base_v + dep_tail);
    }
    let ghost pre_set = cmd.deep_view();
    let release_name = match &d.release_name {
        Some(n) => n.clone(),
        None => cfg.release_name.clone(),
    };
    proof {
        assert(release_name@ == effective_release_name(*cfg, *d));
    }
    assert(cmd.len() >= 4);
    cmd.set(2, release_name.clone());
    proof {
        assert forall|k: int| 0 <= k < cmd@.len() implies #[trigger] cmd.deep_view()[k]
            == pre_set.update(2, effective_release_name(*cfg, *d))[k] by {
            if k != 2 {
                assert(cmd.deep_view()[k] == pre_set[k]);
            }
        }
        assert(cmd.deep_view() =~= pre_set.update(2, effective_release_name(*cfg, *d)));
        assert(cmd.deep_view() =~= base_v.update(2, effective_release_name(*cfg, *d)) + dep_tail);
    }
    let mut fully_qualified_output = cfg.output_path.clone();
    fully_qualified_output.append("/");
    fully_qualified_output.append(d.name.as_str());
    fully_qualified_output.append("/");
    fully_qualified_output.append(release_name.as_str());
    fully_qualified_output.append("/manifest.yaml");
    push_prefixed_all(&mut cmd, "| ", &opts.pipe);
    proof {
        assert(pipe_tokens(opts.pipe) =~= opt_strings(opts.pipe).map_values(
            |p: Seq<char>| "| "@ + p,
        ));
        assert(cmd.deep_view() =~= deployment_cmd(*cfg, *opts, *d));
        assert(fully_qualified_output@ == output_file(*cfg, *d));
    }
    (fully_qualified_output, cmd)
}

impl RenderCmd {
    /// Create sub command struct to render deployments of the given input
    /// file(s).
    pub fn new(opts: RenderCmdOpts) -> (r: Self)
        ensures
            r.opts == opts,
    {
        Self { opts }
    }

    /// Check if deployment name is matched by the filter expression.
    pub fn is_name_filtered(&self, regex: &str, name: &str) -> (r: Result<bool, TemplexerError>)
        ensures
            r is Ok <==> regex_new_ok(regex@),
            r is Ok ==> r->Ok_0 == regex_matches(regex@, name@),
            r is Err ==> (r->Err_0 matches TemplexerError::InvalidFilter { pattern, message }
                && pattern@ == regex@),
    {
        match regex_match(regex, name) {
            Ok(m) => Ok(m),
            Err(message) => Err(
                TemplexerError::InvalidFilter { pattern: String::from_str(regex), message },
            ),
        }
    }

    /// Create a plan of commands to execute.
    ///
    /// A disabled document compiles to a plan that says `skip` and holds no
    /// commands. Otherwise the plan holds one pre-command when a dependency
    /// update was requested, and one command per deployment that the filter
    /// lets through and that is not disabled.
    #[verifier::loop_isolation(false)]
    pub fn plan(&self, cfg: Config) -> (r: Result<Plan, TemplexerError>)
        ensures
            r is Ok <==> plan_compiles(cfg, self.opts),
            r is Ok ==> (r->Ok_0).skip == (cfg.enabled == Some(false)),
            r is Ok ==> (r->Ok_0).commands.wf(),
            r is Ok && cfg.enabled == Some(false) ==> index_map_entries((r->Ok_0).pre_commands)
                =~= Seq::<(Seq<char>, Seq<Seq<char>>)>::empty() && (r->Ok_0).commands@ =~= Map::<
                Seq<char>,
                (Seq<char>, Seq<Seq<char>>),
            >::empty(),
            r is Ok && cfg.enabled != Some(false) ==> index_map_entries((r->Ok_0).pre_commands)
                == pre_commands_of(cfg, self.opts) && (r->Ok_0).commands@ == planned_commands(
                cfg,
                self.opts,
                cfg.deployments@.len() as int,
            ),
            r is Err ==> (r->Err_0 matches TemplexerError::InvalidFilter { pattern, message }
                && self.opts.filter is Some && pattern@ == self.opts.filter->0@),
    {
        if let Some(enabled) = cfg.enabled {
            if !enabled {
                return Ok(
                    Plan { skip: true, pre_commands: index_map_new(), commands: CommandMap::new() },
                );
            }
        }
        let mut pre_commands = index_map_new();
        if self.opts.update_dependencies {
            let mut dep_cmd: Vec<String> = Vec::new();
            dep_cmd.push(String::from_str("helm"));
            dep_cmd.push(String::from_str("dependencies"));
            dep_cmd.push(String::from_str("update"));
            dep_cmd.push(cfg.chart.clone());
            proof {
                assert(dep_cmd.deep_view() =~= seq![
                    "helm"@,
                    "dependencies"@,
                    "update"@,
                    cfg.chart@,
                ]);
            }
            index_map_insert(&mut pre_commands, String::from_str("helm-dependency-update"), dep_cmd);
            proof {
                assert(index_map_entries(pre_commands) =~= pre_commands_of(cfg, self.opts));
            }
        }
        let mut base: Vec<String> = Vec::new();
        base.push(String::from_str("helm"));
        base.push(String::from_str("template"));
        base.push(cfg.release_name.clone());
        base.push(cfg.chart.clone());
        match &cfg.namespace {
            Some(ns) => {
                let mut token = String::from_str("--namespace=");
                token.append(ns.as_str());
                base.push(token);
            },
            None => (),
        }
        proof {
            assert(base.deep_view() =~= seq!["helm"@, "template"@, cfg.release_name@, cfg.chart@]
                + (match cfg.namespace {
                Some(ns) => seq![namespace_flag(ns@)],
                None => Seq::<Seq<char>>::empty(),
            }));
        }
        push_prefixed_all(&mut base, "--values=", &cfg.values);
        match &cfg.additional_options {
            Some(os) => extend_strings(&mut base, os),
            None => (),
        }
        match &self.opts.additional_options {
            Some(os) => extend_strings(&mut base, os),
            None => (),
        }
        proof {
            assert(values_flags(cfg.values) =~= opt_strings(cfg.values).map_values(
                |p: Seq<char>| "--values="@ + p,
            ));
            assert(base.deep_view() =~= base_cmd(cfg, self.opts));
        }
        let mut commands = CommandMap::new();
        let mut i: usize = 0;
        while i < cfg.deployments.len()
            invariant
                i <= cfg.deployments@.len(),
                commands.wf(),
                commands@ == planned_commands(cfg, self.opts, i as int),
                i > 0 && self.opts.filter is Some ==> regex_new_ok(self.opts.filter->0@),
            decreases cfg.deployments@.len() - i,
        {
            let d = &cfg.deployments[i];
            let ghost dg = cfg.deployments@[i as int];
            let passes = match &self.opts.filter {
                Some(f) => {
                    match self.is_name_filtered(f.as_str(), d.name.as_str()) {
                        Ok(m) => m,
                        Err(e) => {
                            return Err(e);
                        },
                    }
                },
                None => true,
            };
            let enabled = match d.enabled {
                Some(e) => e,
                None => true,
            };
            if passes && enabled {
                let planned_command = compile_deployment(&base, &cfg, &self.opts, d);
                proof {
                    assert(deployment_planned(self.opts, dg));
                }
                commands.insert(d.name.clone(), planned_command);
                proof {
                    assert(commands@ =~= planned_commands(cfg, self.opts, i + 1));
                }
            } else {
                proof {
                    assert(!deployment_planned(self.opts, dg));
                    assert(commands@ =~= planned_commands(cfg, self.opts, i + 1));
                }
            }
            i = i + 1;
        }
        Ok(Plan { skip: false, pre_commands, commands })
    }
}

} // verus!
