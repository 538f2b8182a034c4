//! What the enricher advertises to the kernel: its name, description, the
//! commands it accepts with the role each needs, and which metrics it exports.
use vstd::prelude::*;

verus! {

/// The commands the enricher declares.
#[derive(PartialEq, Eq, Structural, Clone, Copy, Debug)]
pub enum CommandKind {
    /// Stops the component.
    Stop,
    /// Starts the component (used by the kernel alone).
    Start,
}

/// The role a user needs to call a command.
#[derive(PartialEq, Eq, Structural, Clone, Copy, Debug)]
pub enum Role {
    /// Full read-write access to the SIEM.
    Administrator,
}

/// The metrics a component declares.
#[derive(PartialEq, Eq, Structural, Clone, Copy, Debug)]
pub enum DeclaredMetrics {
    /// None.
    NoMetrics,
    /// The enrichment-time histogram that the component prepared.
    EnrichmentTime,
}

/// A command as declared to the kernel.
pub struct CommandSpec {
    pub kind: CommandKind,
    pub name: &'static str,
    pub description: &'static str,
    pub role: Role,
}

/// The capabilities of an enricher.
pub struct CapabilitySpec {
    pub name: &'static str,
    pub description: &'static str,
    pub view: &'static str,
    /// Whether it declares any dataset that it uses.
    pub declares_datasets: bool,
    pub commands: Vec<CommandSpec>,
    /// Whether it declares any task that it runs.
    pub declares_tasks: bool,
    pub metrics: DeclaredMetrics,
}

/// The two commands of the enricher: stop, then start, both for administrators.
pub open spec fn declares_commands(commands: Seq<CommandSpec>) -> bool {
    &&& commands.len() == 2
    &&& commands[0].kind == CommandKind::Stop
    &&& commands[0].name@ == "Stops enricher component"@
    &&& commands[0].description@ == "Stops the LogEnricher component"@
    &&& commands[0].role == Role::Administrator
    &&& commands[1].kind == CommandKind::Start
    &&& commands[1].name@ == "Starts enricher component"@
    &&& commands[1].description@ == "Starts the LogEnricher component"@
    &&& commands[1].role == Role::Administrator
}

fn enricher_commands() -> (commands: Vec<CommandSpec>)
    ensures
        declares_commands(commands@),
{
    let mut commands = Vec::new();
    commands.push(
        CommandSpec {
            kind: CommandKind::Stop,
            name: "Stops enricher component",
            description: "Stops the LogEnricher component",
            role: Role::Administrator,
        },
    );
    commands.push(
        CommandSpec {
            kind: CommandKind::Start,
            name: "Starts enricher component",
            description: "Starts the LogEnricher component",
            role: Role::Administrator,
        },
    );
    commands
}

/// The capabilities of `LogEnricherComponent`: no dataset or task, the two
/// commands, and the enrichment-time histogram it prepared.
pub fn component_capabilities() -> (caps: CapabilitySpec)
    ensures
        caps.name@ == "LogEnricher"@,
        caps.description@ == "Enrich logs with information extracted from datasets"@,
        caps.view@ == ""@,
        !caps.declares_datasets,
        declares_commands(caps.commands@),
        !caps.declares_tasks,
        caps.metrics == DeclaredMetrics::EnrichmentTime,
{
    CapabilitySpec {
        name: "LogEnricher",
        description: "Enrich logs with information extracted from datasets",
        view: "",
        declares_datasets: false,
        commands: enricher_commands(),
        declares_tasks: false,
        metrics: DeclaredMetrics::EnrichmentTime,
    }
}

/// The capabilities of the standalone `LogEnricher`: no dataset, task or
/// metric, and the two commands.
pub fn enricher_capabilities() -> (caps: CapabilitySpec)
    ensures
        caps.name@ == "LogEnricher"@,
        caps.description@ == "ENrich logs with information extracted from datasets"@,
        caps.view@ == ""@,
        !caps.declares_datasets,
        declares_commands(caps.commands@),
        !caps.declares_tasks,
        caps.metrics == DeclaredMetrics::NoMetrics,
{
    CapabilitySpec {
        name: "LogEnricher",
        description: "ENrich logs with information extracted from datasets",
        view: "",
        declares_datasets: false,
        commands: enricher_commands(),
        declares_tasks: false,
        metrics: DeclaredMetrics::NoMetrics,
    }
}

} // verus!
