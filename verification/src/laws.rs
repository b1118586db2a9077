//! Laws of the plan compiler, stated and proved over the same spec functions
//! that the compiler's own contract uses.
use vstd::prelude::*;

use crate::config::{opt_strings, Config, Deployment};
use crate::render_cmd::{
    base_cmd, deployment_cmd, deployment_planned, document_cmd, effective_release_name,
    output_file, pipe_tokens, planned_commands, regex_matches, values_flags,
};
use crate::RenderCmdOpts;

verus! {

/// The command table compiled from the first `n` deployments has an entry
/// for `name` exactly when one of those deployments carries that name and is
/// planned (the filter lets it through and it is not disabled).
pub proof fn lemma_planned_key_iff(cfg: Config, opts: RenderCmdOpts, n: int, name: Seq<char>)
    requires
        0 <= n <= cfg.deployments@.len(),
    ensures
        planned_commands(cfg, opts, n).contains_key(name) <==> exists|i: int|
            0 <= i < n && (#[trigger] cfg.deployments@[i]).name@ == name && deployment_planned(
                opts,
                cfg.deployments@[i],
            ),
    decreases n,
{
    if n > 0 {
        lemma_planned_key_iff(cfg, opts, n - 1, name);
        let d = cfg.deployments@[n - 1];
        if planned_commands(cfg, opts, n).contains_key(name) {
            if deployment_planned(opts, d) && d.name@ == name {
                assert(cfg.deployments@[n - 1].name@ == name && deployment_planned(
                    opts,
                    cfg.deployments@[n - 1],
                ));
            }
        }
        if exists|i: int|
            0 <= i < n && (#[trigger] cfg.deployments@[i]).name@ == name && deployment_planned(
                opts,
                cfg.deployments@[i],
            ) {
            let i = choose|i: int|
                0 <= i < n && (#[trigger] cfg.deployments@[i]).name@ == name && deployment_planned(
                    opts,
                    cfg.deployments@[i],
                );
            if i < n - 1 {
                assert(planned_commands(cfg, opts, n - 1).contains_key(name));
            }
        }
    }
}

/// The entry that the command table holds for the name of deployment `i`,
/// provided deployment `i` is planned and no later deployment reuses its
/// name: the output file and argument list compiled from deployment `i`.
pub proof fn lemma_planned_entry_value(cfg: Config, opts: RenderCmdOpts, n: int, i: int)
    requires
        0 <= i < n <= cfg.deployments@.len(),
        deployment_planned(opts, cfg.deployments@[i]),
        forall|j: int|
            i < j < n ==> (#[trigger] cfg.deployments@[j]).name@ != cfg.deployments@[i].name@,
    ensures
        planned_commands(cfg, opts, n).contains_key(cfg.deployments@[i].name@),
        planned_commands(cfg, opts, n)[cfg.deployments@[i].name@] == (
            output_file(cfg, cfg.deployments@[i]),
            deployment_cmd(cfg, opts, cfg.deployments@[i]),
        ),
    decreases n,
{
    if i < n - 1 {
        lemma_planned_entry_value(cfg, opts, n - 1, i);
        assert(cfg.deployments@[n - 1].name@ != cfg.deployments@[i].name@);
    }
}

/// Law: a deployment with `enabled` set to false is not planned. When every
/// deployment carrying `name` is disabled, the compiled command table has no
/// entry for `name`.
pub proof fn lemma_disabled_deployment_not_planned(
    cfg: Config,
    opts: RenderCmdOpts,
    name: Seq<char>,
)
    requires
        forall|i: int|
            0 <= i < cfg.deployments@.len() && (#[trigger] cfg.deployments@[i]).name@ == name
                ==> cfg.deployments@[i].enabled == Some(false),
    ensures
        !planned_commands(cfg, opts, cfg.deployments@.len() as int).contains_key(name),
{
    lemma_planned_key_iff(cfg, opts, cfg.deployments@.len() as int, name);
}

/// Law: a deployment whose name the filter expression does not match is not
/// planned: the compiled command table has no entry for `name`.
pub proof fn lemma_filtered_deployment_not_planned(
    cfg: Config,
    opts: RenderCmdOpts,
    name: Seq<char>,
)
    requires
        opts.filter is Some,
        !regex_matches(opts.filter->0@, name),
    ensures
        !planned_commands(cfg, opts, cfg.deployments@.len() as int).contains_key(name),
{
    lemma_planned_key_iff(cfg, opts, cfg.deployments@.len() as int, name);
}

/// Law: a deployment that the filter lets through and that is not disabled
/// is planned: the compiled command table has an entry for its name.
pub proof fn lemma_matching_deployment_planned(cfg: Config, opts: RenderCmdOpts, i: int)
    requires
        0 <= i < cfg.deployments@.len(),
        deployment_planned(opts, cfg.deployments@[i]),
    ensures
        planned_commands(cfg, opts, cfg.deployments@.len() as int).contains_key(
            cfg.deployments@[i].name@,
        ),
{
    lemma_planned_key_iff(cfg, opts, cfg.deployments@.len() as int, cfg.deployments@[i].name@);
}

/// Law: release-name override. The release-name token of a compiled command
/// (the third token) is the deployment's own release name when one is given,
/// and the document's release name otherwise.
pub proof fn lemma_release_name_override(cfg: Config, opts: RenderCmdOpts, d: Deployment)
    ensures
        deployment_cmd(cfg, opts, d)[2] == effective_release_name(cfg, d),
        d.release_name matches Some(n) ==> deployment_cmd(cfg, opts, d)[2] == n@,
        d.release_name is None ==> deployment_cmd(cfg, opts, d)[2] == cfg.release_name@,
{
    assert(base_cmd(cfg, opts).len() >= 4);
    assert(base_cmd(cfg, opts).update(2, effective_release_name(cfg, d))[2]
        == effective_release_name(cfg, d));
}

/// Law: release-name override, seen on the command table. When deployment
/// `i` is planned and no later deployment reuses its name, the release-name
/// token of its table entry is its own release name when one is given, and
/// the document's otherwise.
pub proof fn lemma_release_name_override_in_plan(cfg: Config, opts: RenderCmdOpts, i: int)
    requires
        0 <= i < cfg.deployments@.len(),
        deployment_planned(opts, cfg.deployments@[i]),
        forall|j: int|
            i < j < cfg.deployments@.len() ==> (#[trigger] cfg.deployments@[j]).name@
                != cfg.deployments@[i].name@,
    ensures
        planned_commands(cfg, opts, cfg.deployments@.len() as int).contains_key(
            cfg.deployments@[i].name@,
        ),
        planned_commands(cfg, opts, cfg.deployments@.len() as int)[cfg.deployments@[i].name@].1[2]
            == effective_release_name(cfg, cfg.deployments@[i]),
{
    lemma_planned_entry_value(cfg, opts, cfg.deployments@.len() as int, i);
    lemma_release_name_override(cfg, opts, cfg.deployments@[i]);
}

/// Law: the command-line additional options sit immediately after the
/// document-level tokens and before every deployment-level token, in every
/// compiled command, however many deployments the document has.
pub proof fn lemma_cli_options_position(cfg: Config, opts: RenderCmdOpts, d: Deployment)
    ensures
        deployment_cmd(cfg, opts, d) == document_cmd(cfg).update(
            2,
            effective_release_name(cfg, d),
        ) + opt_strings(opts.additional_options) + values_flags(d.values) + opt_strings(
            d.additional_options,
        ) + pipe_tokens(opts.pipe),
{
    assert(document_cmd(cfg).len() >= 4);
    assert(deployment_cmd(cfg, opts, d) =~= document_cmd(cfg).update(
        2,
        effective_release_name(cfg, d),
    ) + opt_strings(opts.additional_options) + values_flags(d.values) + opt_strings(
        d.additional_options,
    ) + pipe_tokens(opts.pipe));
}

/// Law: the pipe tokens are the trailing tokens of every compiled command,
/// in the order given on the command line.
pub proof fn lemma_pipe_tokens_last(cfg: Config, opts: RenderCmdOpts, d: Deployment)
    ensures
        deployment_cmd(cfg, opts, d).len() >= pipe_tokens(opts.pipe).len(),
        deployment_cmd(cfg, opts, d).subrange(
            deployment_cmd(cfg, opts, d).len() - pipe_tokens(opts.pipe).len(),
            deployment_cmd(cfg, opts, d).len() as int,
        ) == pipe_tokens(opts.pipe),
{
    let cmd = deployment_cmd(cfg, opts, d);
    let pipes = pipe_tokens(opts.pipe);
    assert(cmd.subrange(cmd.len() - pipes.len(), cmd.len() as int) =~= pipes);
}

} // verus!
