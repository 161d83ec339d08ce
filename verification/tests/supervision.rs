use omega_tui::app::{App, Panel};
use omega_tui::context_supervision::{
    build_document_lines, build_knowledge_detail_lines, build_knowledge_lines, build_memory_lines, ByteSizeLabels,
    ContextSupervisionSnapshot, DocumentHealthStatus, DocumentHit, DocumentHitSummary, DocumentStoreVersion,
    DocumentSupervisionSnapshot, DocumentTotals, HealthScore, MemoryHit, MemoryQuery, MemorySupervisionSnapshot,
    MemoryTotals, ObservationHit, ObservationRecall, OperatorUsage, SelectedSummaries, SummaryHit,
    SupervisionActivity,
};
use omega_tui::overlay::OverlayState;

fn document_totals() -> DocumentTotals {
    DocumentTotals {
        total_files_indexed: 0,
        total_chunks: 0,
        total_embeddings: 0,
        lance_db_size_bytes: 0,
        tantivy_index_size_bytes: 0,
        index_staleness_seconds: 0,
        last_health_check: None,
        governance_health: None,
    }
}

fn document() -> DocumentSupervisionSnapshot {
    DocumentSupervisionSnapshot {
        enabled: false,
        readiness: "uninitialized".to_string(),
        totals: document_totals(),
        health_status: DocumentHealthStatus::NeverChecked,
        active_version: None,
        pending_version: None,
        last_promotion_error: None,
        operator_usage: Vec::new(),
        recent_activity: Vec::new(),
        current_hits: None,
    }
}

fn memory_totals() -> MemoryTotals {
    MemoryTotals {
        total_turns_archived: 0,
        compactions_triggered: 0,
        current_summary_count: 0,
        current_summary_tokens: 0,
        turn_archive_count: 0,
        turn_archive_size_bytes: 0,
        retention_candidates_accepted: 0,
        retention_candidates_dropped: 0,
        memory_query_count: 0,
        memory_query_hit_mix: Vec::new(),
        observation_count: 0,
        observation_fresh_count: 0,
        observation_stale_count: 0,
        observation_superseded_count: 0,
        observation_corrected_count: 0,
        observation_correction_activity: 0,
        dropped_candidates_by_profile: Vec::new(),
    }
}

fn memory() -> MemorySupervisionSnapshot {
    MemorySupervisionSnapshot {
        enabled: false,
        readiness: "uninitialized".to_string(),
        totals: memory_totals(),
        current_hits: None,
        current_query: None,
        current_observations: None,
    }
}

fn sizes() -> ByteSizeLabels {
    ByteSizeLabels { lance_db: "0 B".to_string(), tantivy_index: "0 B".to_string(), turn_archive: "0 B".to_string() }
}

fn snapshot(document: DocumentSupervisionSnapshot, memory: MemorySupervisionSnapshot) -> ContextSupervisionSnapshot {
    ContextSupervisionSnapshot { document, memory, sizes: sizes() }
}

fn memory_query(result_count: u64, top_hits: Vec<MemoryHit>) -> MemoryQuery {
    MemoryQuery {
        query: "policy".to_string(),
        planned_queries: Vec::new(),
        rewrite_reason: None,
        rewrite_queries: Vec::new(),
        result_count,
        hit_mix: Vec::new(),
        top_hits,
    }
}

fn observations(result_count: u64, top_hits: Vec<ObservationHit>) -> ObservationRecall {
    ObservationRecall {
        query: "policy".to_string(),
        planned_queries: Vec::new(),
        rewrite_reason: None,
        rewrite_queries: Vec::new(),
        result_count,
        freshness_mix: Vec::new(),
        top_hits,
    }
}

#[test]
fn document_lines_explain_uninitialized_store_and_pending_health_check() {
    let mut d = document();
    d.enabled = true;
    d.totals.lance_db_size_bytes = 5 * 1024 * 1024;
    d.totals.tantivy_index_size_bytes = 640 * 1024;
    let lines = build_document_lines(&snapshot(d, memory()));

    assert!(lines.iter().any(|line| line.contains("status: enabled (uninitialized)")));
    assert!(lines.iter().any(|line| line.contains("governance=pending_health_check")));
    assert!(lines.iter().any(|line| line.contains("store note: disk bytes exist")));
}

#[test]
fn document_lines_distinguish_query_attempts_without_hits() {
    let mut d = document();
    d.enabled = true;
    d.operator_usage = vec![OperatorUsage {
        operator: "context_recall_planner".to_string(),
        source: "planner".to_string(),
        count: 3,
        last_used_at: Some(42),
    }];
    let lines = build_document_lines(&snapshot(d, memory()));

    assert!(lines.iter().any(|line| {
        line.contains("recent document recall attempts ran before any promoted store version was available")
    }));
    assert!(lines.iter().any(|line| line == "- context_recall_planner via planner count=3 last=42"));
}

#[test]
fn knowledge_lines_show_compact_hit_dashboard() {
    let mut d = document();
    d.enabled = true;
    d.current_hits = Some(DocumentHitSummary {
        query: "policy".to_string(),
        result_count: 3,
        mode: "semantic".to_string(),
        degraded_from: None,
        top_hits: vec![],
    });
    let mut m = memory();
    m.current_query = Some(memory_query(2, vec![]));
    m.current_observations = Some(observations(1, vec![]));
    let lines = build_knowledge_lines(&snapshot(d, m));

    assert!(lines.iter().any(|line| line == "hits:"));
    assert!(lines.iter().any(|line| line.contains("doc ██████ 3")));
    assert!(lines.iter().any(|line| line.contains("mem ████░░ 2")));
    assert!(lines.iter().any(|line| line.contains("obs ██░░░░ 1")));
}

#[test]
fn knowledge_lines_list_status_counts_and_leads() {
    let mut d = document();
    d.enabled = true;
    d.readiness = "ready".to_string();
    d.health_status = DocumentHealthStatus::Good;
    d.totals.governance_health = Some(HealthScore::NeedsAttention);
    d.totals.total_files_indexed = 12;
    d.totals.total_chunks = 90;
    d.operator_usage = vec![
        OperatorUsage { operator: "a".to_string(), source: "s".to_string(), count: 2, last_used_at: None },
        OperatorUsage { operator: "b".to_string(), source: "s".to_string(), count: 5, last_used_at: None },
    ];
    d.current_hits = Some(DocumentHitSummary {
        query: "q".to_string(),
        result_count: 1,
        mode: "keyword".to_string(),
        degraded_from: None,
        top_hits: vec![DocumentHit { path: "src/app.rs".to_string(), preview: "fn main".to_string() }],
    });
    let mut m = memory();
    m.readiness = "ready".to_string();
    m.totals.memory_query_count = 4;
    m.totals.observation_count = 7;
    m.current_query = Some(memory_query(
        1,
        vec![MemoryHit { profile: "fact".to_string(), title: "Rule".to_string(), preview: "p".to_string() }],
    ));
    m.current_observations = Some(observations(
        1,
        vec![ObservationHit { freshness: "fresh".to_string(), title: "Obs".to_string(), summary: "s".to_string() }],
    ));
    let lines = build_knowledge_lines(&snapshot(d, m));
    assert_eq!(lines[0], "status: doc on (ready) · mem off (ready)");
    assert_eq!(lines[1], "stores: files=12 chunks=90 turns=0 summaries=0");
    assert_eq!(lines[2], "health: doc=good govern=needs_attention obs=7");
    assert_eq!(lines[7], "queries: doc=7 mem=4 corrections=0");
    assert_eq!(&lines[8..], &["doc lead: src/app.rs", "mem lead: [fact] Rule", "obs lead: [fresh] Obs"]);
}

#[test]
fn document_lines_show_versions_activity_and_hits() {
    let mut d = document();
    d.health_status = DocumentHealthStatus::Critical;
    d.totals.last_health_check = Some(30);
    d.active_version = Some(DocumentStoreVersion {
        version_id: "v2".to_string(),
        manifest_revision: 3,
        tantivy_revision: 4,
        lance_revision: None,
        storage_path: "/store/v2".to_string(),
    });
    d.last_promotion_error = Some("disk full".to_string());
    d.recent_activity = vec![
        SupervisionActivity { label: "index".to_string(), at: 1, detail: "a".to_string() },
        SupervisionActivity { label: "index".to_string(), at: 2, detail: "b".to_string() },
        SupervisionActivity { label: "index".to_string(), at: 3, detail: "c".to_string() },
        SupervisionActivity { label: "index".to_string(), at: 4, detail: "d".to_string() },
    ];
    d.current_hits = Some(DocumentHitSummary {
        query: String::new(),
        result_count: 0,
        mode: "keyword".to_string(),
        degraded_from: Some("semantic".to_string()),
        top_hits: vec![],
    });
    let lines = build_document_lines(&snapshot(d, memory()));
    assert_eq!(lines[0], "status: disabled (uninitialized)");
    assert_eq!(lines[2], "store: lance=0 B tantivy=0 B");
    assert_eq!(lines[3], "freshness: staleness=0s health=critical governance=unknown");
    assert_eq!(lines[4], "active: v2 rev=3 tantivy=4 lance=none path=/store/v2");
    assert_eq!(lines[5], "promotion: disk full");
    assert_eq!(lines[6], "health check: last_run=30s");
    assert_eq!(lines[7], "activity:");
    assert_eq!(lines.iter().filter(|l| l.starts_with("- index @")).count(), 3);
    assert!(lines.iter().any(|l| l == "query: (empty query)"));
    assert!(lines.iter().any(|l| l == "results: 0 via keyword (degraded from semantic)"));
    assert_eq!(lines.last().unwrap(), "hits: no matches returned");
}

#[test]
fn memory_lines_show_selection_queries_and_observations() {
    let mut m = memory();
    m.enabled = true;
    m.totals.memory_query_hit_mix = vec![("fact".to_string(), 2), ("rule".to_string(), 1)];
    m.totals.dropped_candidates_by_profile = vec![("noise".to_string(), 3)];
    m.current_hits = Some(SelectedSummaries {
        selected_count: 1,
        total_tokens: 40,
        top_hits: vec![SummaryHit {
            title: "Plan".to_string(),
            workflow_id: "feature".to_string(),
            step_id: "plan".to_string(),
            preview: "did it".to_string(),
        }],
    });
    let mut q = memory_query(2, vec![]);
    q.planned_queries = vec!["a".to_string(), "b".to_string()];
    q.rewrite_reason = Some("too broad".to_string());
    m.current_query = Some(q);
    let mut s = sizes();
    s.turn_archive = "1.5 KiB".to_string();
    let lines = build_memory_lines(&ContextSupervisionSnapshot { document: document(), memory: m, sizes: s });
    assert_eq!(lines[0], "status: enabled (uninitialized)");
    assert_eq!(lines[3], "archive: count=0 size=1.5 KiB");
    assert_eq!(lines[5], "queries: count=0 mix=fact=2, rule=1");
    assert_eq!(lines[7], "dropped by profile: noise=3");
    assert_eq!(&lines[8..12], &["", "selected summaries: 1 (40)", "- Plan [feature:plan]", "  did it"]);
    assert!(lines.iter().any(|l| l == "planned memory queries: a | b"));
    assert!(lines.iter().any(|l| l == "memory rewrite reason: too broad"));
    assert!(lines.iter().any(|l| l == "archived memory hits: 2 (none)"));
    assert_eq!(lines.last().unwrap(), "observations: no project observation recall has populated supervision yet");
}

#[test]
fn supervision_snapshot_fills_panels_and_details() {
    let mut app = App::new();
    assert!(!app.open_knowledge_supervision_detail());
    let snap = snapshot(document(), memory());
    app.set_context_supervision(snap.clone());
    assert_eq!(app.document_lines, build_knowledge_lines(&snap));
    assert_eq!(app.memory_lines, build_memory_lines(&snap));
    app.focused_panel = Panel::Document;
    assert!(app.open_knowledge_supervision_detail());
    match app.overlay.as_ref() {
        Some(OverlayState::Detail(d)) => {
            assert_eq!(d.title, " Knowledge ");
            assert_eq!(d.lines, build_knowledge_detail_lines(&snap));
            assert_eq!(d.lines[0], "Document lane");
        },
        other => panic!("expected a detail overlay, got {other:?}"),
    }
    assert!(app.open_memory_supervision_detail());
    app.begin_turn();
    assert!(app.context_supervision.is_none());
    assert_eq!(app.document_lines, vec!["No knowledge supervision snapshot yet.".to_string()]);
}
