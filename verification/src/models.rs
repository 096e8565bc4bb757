//! The document that `state.json` holds.
//!
//! That file, in the private repo, is the single source of truth. The console
//! reads and writes it, and the executor in the repo runs the commands that are
//! queued in it and writes the results back.

use crate::text;
use crate::text::{join, opt_clone};
use vstd::prelude::*;
use vstd::string::*;

verus! {

/// Root document persisted as `state.json`.
#[derive(Debug)]
pub struct ConsoleState {
    pub schema_version: u32,
    pub updated_at: Option<String>,
    pub org_id: String,
    pub deployments: Vec<Deployment>,
    pub commands: Vec<Command>,
}

/// One showcase deployment: an AMP demo or workshop environment.
#[derive(Debug, PartialEq)]
pub struct Deployment {
    pub sector: String,
    pub slug: String,
    /// Canonical name: `showcase_<sector>_<slug>`.
    pub name: String,
    /// "Online" | "Provisioning" | "Failed" | "Not deployed"
    pub status: String,
    pub public_url: Option<String>,
    pub updated_at: Option<String>,
}

/// A queued instruction for the executor.
#[derive(Debug, PartialEq)]
pub struct Command {
    /// uuid v4.
    pub id: String,
    /// "provision" | "reset" | "teardown"
    pub action: String,
    /// "<sector>/<slug>" for a single scenario, or None for all.
    pub scenario: Option<String>,
    pub requested_at: String,
    /// "pending" | "done" | "error"
    pub state: String,
}

/// What a [`ConsoleState`] holds.
#[verifier::ext_equal]
pub struct ConsoleView {
    pub schema_version: u32,
    pub updated_at: Option<Seq<char>>,
    pub org_id: Seq<char>,
    pub deployments: Seq<DeploymentView>,
    pub commands: Seq<CommandView>,
}

/// What a [`Deployment`] holds.
#[verifier::ext_equal]
pub struct DeploymentView {
    pub sector: Seq<char>,
    pub slug: Seq<char>,
    pub name: Seq<char>,
    pub status: Seq<char>,
    pub public_url: Option<Seq<char>>,
    pub updated_at: Option<Seq<char>>,
}

/// What a [`Command`] holds.
#[verifier::ext_equal]
pub struct CommandView {
    pub id: Seq<char>,
    pub action: Seq<char>,
    pub scenario: Option<Seq<char>>,
    pub requested_at: Seq<char>,
    pub state: Seq<char>,
}

impl View for ConsoleState {
    type V = ConsoleView;

    open spec fn view(&self) -> ConsoleView {
        ConsoleView {
            schema_version: self.schema_version,
            updated_at: text::opt_text(self.updated_at),
            org_id: self.org_id@,
            deployments: Seq::new(self.deployments@.len(), |i: int| self.deployments@[i]@),
            commands: Seq::new(self.commands@.len(), |i: int| self.commands@[i]@),
        }
    }
}

impl View for Deployment {
    type V = DeploymentView;

    open spec fn view(&self) -> DeploymentView {
        DeploymentView {
            sector: self.sector@,
            slug: self.slug@,
            name: self.name@,
            status: self.status@,
            public_url: text::opt_text(self.public_url),
            updated_at: text::opt_text(self.updated_at),
        }
    }
}

impl View for Command {
    type V = CommandView;

    open spec fn view(&self) -> CommandView {
        CommandView {
            id: self.id@,
            action: self.action@,
            scenario: text::opt_text(self.scenario),
            requested_at: self.requested_at@,
            state: self.state@,
        }
    }
}

impl ConsoleView {
    /// The empty state of a repo that has no `state.json` yet.
    pub open spec fn initial(org_id: Seq<char>) -> ConsoleView {
        ConsoleView {
            schema_version: 1,
            updated_at: None,
            org_id,
            deployments: Seq::empty(),
            commands: Seq::empty(),
        }
    }
}

impl DeploymentView {
    /// `"<sector>/<slug>"`, the key by which a command names a deployment.
    pub open spec fn scenario(self) -> Seq<char> {
        self.sector + "/"@ + self.slug
    }
}

impl ConsoleState {
    /// A fresh, empty state for a repo that has no `state.json` yet.
    pub fn initial(org_id: &str) -> (res: Self)
        ensures
            res@ == ConsoleView::initial(org_id@),
    {
        ConsoleState {
            schema_version: 1,
            updated_at: None,
            org_id: org_id.to_owned(),
            deployments: Vec::new(),
            commands: Vec::new(),
        }
    }
}

impl Deployment {
    /// `"<sector>/<slug>"`, the scenario key used by commands.
    pub fn scenario(&self) -> (res: String)
        ensures
            res@ == self@.scenario(),
    {
        join(&join(&self.sector, "/"), &self.slug)
    }
}

impl Default for ConsoleState {
    fn default() -> (res: Self)
        ensures
            res@ == (ConsoleView {
                schema_version: 0,
                updated_at: None,
                org_id: Seq::empty(),
                deployments: Seq::empty(),
                commands: Seq::empty(),
            }),
    {
        ConsoleState {
            schema_version: 0,
            updated_at: None,
            org_id: String::new(),
            deployments: Vec::new(),
            commands: Vec::new(),
        }
    }
}

impl Clone for ConsoleState {
    fn clone(&self) -> (res: Self)
        ensures
            res@ == self@,
    {
        ConsoleState {
            schema_version: self.schema_version,
            updated_at: opt_clone(&self.updated_at),
            org_id: self.org_id.clone(),
            deployments: self.deployments.clone(),
            commands: self.commands.clone(),
        }
    }
}

impl Clone for Deployment {
    fn clone(&self) -> (res: Self)
        ensures
            res == *self,
    {
        Deployment {
            sector: self.sector.clone(),
            slug: self.slug.clone(),
            name: self.name.clone(),
            status: self.status.clone(),
            public_url: opt_clone(&self.public_url),
            updated_at: opt_clone(&self.updated_at),
        }
    }
}

impl Clone for Command {
    fn clone(&self) -> (res: Self)
        ensures
            res == *self,
    {
        Command {
            id: self.id.clone(),
            action: self.action.clone(),
            scenario: opt_clone(&self.scenario),
            requested_at: self.requested_at.clone(),
            state: self.state.clone(),
        }
    }
}

} // verus!
