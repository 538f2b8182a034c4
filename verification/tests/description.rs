use u_siem_enricher::capabilities::{
    component_capabilities, enricher_capabilities, CommandKind, DeclaredMetrics, Role,
};
use u_siem_enricher::metrics::{enricher_label, metric_labels, total_label, METRIC_DESCRIPTION, METRIC_NAME};

#[test]
fn labels_for_five_enrichers() {
    let names = vec!["Enricher1", "Enricher2", "Enricher3", "Enricher4", "Enricher5"];
    let labels = metric_labels(&names);
    assert_eq!(labels.len(), 6);
    for (i, name) in names.iter().enumerate() {
        assert_eq!(labels[i], vec![("name", *name)]);
    }
    assert_eq!(labels[5], vec![("name", "")]);
}

#[test]
fn labels_without_enrichers() {
    let labels = metric_labels(&vec![]);
    assert_eq!(labels, vec![vec![("name", "")]]);
}

#[test]
fn observation_labels() {
    assert_eq!(enricher_label("MacEnricher"), vec![("name", "MacEnricher")]);
    assert_eq!(total_label(), vec![("name", "")]);
}

#[test]
fn metric_definition_texts() {
    assert_eq!(METRIC_NAME, "enricher_processed_logs");
    assert_eq!(METRIC_DESCRIPTION, "Processed logs");
}

#[test]
fn component_capabilities_texts() {
    let caps = component_capabilities();
    assert_eq!(caps.name, "LogEnricher");
    assert_eq!(caps.description, "Enrich logs with information extracted from datasets");
    assert_eq!(caps.view, "");
    assert_eq!(caps.commands.len(), 2);
    assert_eq!(caps.commands[0].kind, CommandKind::Stop);
    assert_eq!(caps.commands[0].name, "Stops enricher component");
    assert_eq!(caps.commands[0].description, "Stops the LogEnricher component");
    assert_eq!(caps.commands[1].kind, CommandKind::Start);
    assert_eq!(caps.commands[1].name, "Starts enricher component");
    assert_eq!(caps.commands[1].description, "Starts the LogEnricher component");
    assert_eq!(caps.commands[0].role, Role::Administrator);
    assert_eq!(caps.commands[1].role, Role::Administrator);
    assert!(!caps.declares_datasets);
    assert!(!caps.declares_tasks);
    assert_eq!(caps.metrics, DeclaredMetrics::EnrichmentTime);
}

#[test]
fn enricher_capabilities_texts() {
    let caps = enricher_capabilities();
    assert_eq!(caps.name, "LogEnricher");
    assert_eq!(caps.description, "ENrich logs with information extracted from datasets");
    assert_eq!(caps.commands.len(), 2);
    assert_eq!(caps.commands[0].kind, CommandKind::Stop);
    assert_eq!(caps.commands[1].kind, CommandKind::Start);
    assert_eq!(caps.commands[0].role, Role::Administrator);
    assert_eq!(caps.commands[1].role, Role::Administrator);
    assert_eq!(caps.view, "");
    assert!(!caps.declares_datasets);
    assert!(!caps.declares_tasks);
    assert_eq!(caps.metrics, DeclaredMetrics::NoMetrics);
}
