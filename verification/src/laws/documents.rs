//! Calls on the document: the key of a deployment, the first document, and a command
//! taken into one.

use crate::app;
use crate::laws::alike;
use crate::models::{Command, ConsoleState, Deployment};
use vstd::prelude::*;
use vstd::view::View as _;

verus! {

/// The key of a deployment: its sector, a slash, its slug.
pub open spec fn key(d: Deployment) -> Seq<char> {
    d.sector@.push('/') + d.slug@
}

/// Whether a command is for a deployment: for the one that it names, or for every one
/// where it names none.
pub open spec fn is_for(cmd: Command, d: Deployment) -> bool {
    cmd.scenario matches Some(name) ==> name@ == key(d)
}

/// Whether a deployment was put in a status at the time of a command, and is otherwise as
/// it was.
pub open spec fn put_in(before: Deployment, after: Deployment, status: Seq<char>, cmd: Command) -> bool {
    &&& after.sector@ == before.sector@
    &&& after.slug@ == before.slug@
    &&& after.name@ == before.name@
    &&& alike::read(after.public_url) == alike::read(before.public_url)
    &&& after.status@ == status
    &&& alike::read(after.updated_at) == Some(cmd.requested_at@)
}

/// Whether every earlier command is still queued, in order and unchanged, followed by
/// `cmd` and nothing else.
pub open spec fn queue_grew_by(before: ConsoleState, after: ConsoleState, cmd: Command) -> bool {
    &&& after.commands@.len() == before.commands@.len() + 1
    &&& forall|i: int|
        #![trigger before.commands@[i]]
        #![trigger after.commands@[i]]
        0 <= i < before.commands@.len() ==> alike::command(
            after.commands@[i],
            before.commands@[i],
        )
    &&& alike::command(after.commands@[before.commands@.len() as int], cmd)
}

/// Whether each deployment followed a command: those that a teardown is for are not
/// deployed, those that a provision or a reset is for are being provisioned, and all
/// others are untouched, as they all are by any other action.
pub open spec fn deployments_followed(
    before: ConsoleState,
    after: ConsoleState,
    cmd: Command,
) -> bool {
    &&& after.deployments@.len() == before.deployments@.len()
    &&& forall|i: int|
        #![trigger before.deployments@[i]]
        #![trigger after.deployments@[i]]
        0 <= i < before.deployments@.len() ==> {
            let was = before.deployments@[i];
            let is = after.deployments@[i];
            let provisions = cmd.action@ == "provision"@ || cmd.action@ == "reset"@;
            let tears_down = cmd.action@ == "teardown"@;
            &&& is_for(cmd, was) && tears_down ==> put_in(was, is, "Not deployed"@, cmd)
            &&& is_for(cmd, was) && provisions ==> put_in(was, is, "Provisioning"@, cmd)
            &&& !is_for(cmd, was) || !(tears_down || provisions) ==> alike::deployment(is, was)
        }
}

/// Whether `after` is `before` with a command taken in, and nothing else changed.
pub open spec fn took_in(before: ConsoleState, after: ConsoleState, cmd: Command) -> bool {
    &&& queue_grew_by(before, after, cmd)
    &&& deployments_followed(before, after, cmd)
    &&& alike::read(after.updated_at) == Some(cmd.requested_at@)
    &&& after.schema_version == before.schema_version
    &&& after.org_id@ == before.org_id@
}

/// What it takes for a command to have been taken in.
pub proof fn lemma_took_in(before: ConsoleState, after: ConsoleState, cmd: Command)
    requires
        after@ == app::applied(before@, cmd@),
    ensures
        took_in(before, after, cmd),
{
    reveal_strlit("teardown");
    reveal_strlit("provision");
    reveal_strlit("reset");
    assert("teardown"@.len() == 8 && "provision"@.len() == 9 && "reset"@.len() == 5);
    let n = before.commands@.len() as int;
    assert(after@.commands.len() == n + 1);
    assert(after@.deployments.len() == before.deployments@.len());
    assert forall|i: int| 0 <= i < n implies alike::command(
        #[trigger] after.commands@[i],
        before.commands@[i],
    ) by {
        assert(after@.commands[i] == before@.commands[i]);
    }
    assert(after@.commands[n] == cmd@);
    assert forall|i: int| 0 <= i < before.deployments@.len() implies {
        let was = before.deployments@[i];
        let is = #[trigger] after.deployments@[i];
        let provisions = cmd.action@ == "provision"@ || cmd.action@ == "reset"@;
        let tears_down = cmd.action@ == "teardown"@;
        &&& is_for(cmd, was) && tears_down ==> put_in(was, is, "Not deployed"@, cmd)
        &&& is_for(cmd, was) && provisions ==> put_in(was, is, "Provisioning"@, cmd)
        &&& !is_for(cmd, was) || !(tears_down || provisions) ==> alike::deployment(is, was)
    } by {
        let was = before.deployments@[i];
        let is = after.deployments@[i];
        assert(after@.deployments[i] == app::nudged(before@.deployments[i], cmd@));
        assert(was@.scenario() =~= key(was)) by {
            reveal_strlit("/");
        }
    }
}

/// Taking a command into a document appends it to the queue, puts the deployments that it
/// is for in the status of its action, and leaves everything else as it was.
pub proof fn law_command_is_taken_in(cs: &mut ConsoleState, cmd: &Command)
    requires
        call_ensures(app::apply_command, (cs, cmd), ()),
    ensures
        took_in(*old(cs), *final(cs), *cmd),
{
    lemma_took_in(*old(cs), *final(cs), *cmd);
}

/// The key that a deployment gives is its sector, a slash and its slug.
pub proof fn law_key_of_deployment(d: &Deployment, res: String)
    requires
        call_ensures(Deployment::scenario, (d,), res),
    ensures
        res@ == key(*d),
        res@.len() == d.sector@.len() + 1 + d.slug@.len(),
        res@[d.sector@.len() as int] == '/',
        res@.take(d.sector@.len() as int) == d.sector@,
        res@.skip(d.sector@.len() as int + 1) == d.slug@,
{
    reveal_strlit("/");
    assert(res@ =~= key(*d));
    assert(res@.take(d.sector@.len() as int) =~= d.sector@);
    assert(res@.skip(d.sector@.len() as int + 1) =~= d.slug@);
}

/// The first document is of the first schema, belongs to the org, and holds nothing.
pub proof fn law_first_document(org_id: &str, res: ConsoleState)
    requires
        call_ensures(ConsoleState::initial, (org_id,), res),
    ensures
        res.schema_version == 1,
        res.org_id@ == org_id@,
        res.updated_at is None,
        res.deployments@.len() == 0,
        res.commands@.len() == 0,
{
    assert(res@.deployments.len() == 0);
    assert(res@.commands.len() == 0);
}

/// The default document is of no schema, belongs to no org, and holds nothing.
pub proof fn law_default_document(res: ConsoleState)
    requires
        call_ensures(<ConsoleState as Default>::default, (), res),
    ensures
        res.schema_version == 0,
        res.org_id@.len() == 0,
        res.updated_at is None,
        res.deployments@.len() == 0,
        res.commands@.len() == 0,
{
    assert(res@.deployments.len() == 0);
    assert(res@.commands.len() == 0);
}

/// A copy of a document says the same as the document.
pub proof fn law_copied_document(cs: &ConsoleState, res: ConsoleState)
    requires
        call_ensures(<ConsoleState as Clone>::clone, (cs,), res),
    ensures
        alike::document(res, *cs),
{
    alike::lemma_document(res, *cs);
}

} // verus!
