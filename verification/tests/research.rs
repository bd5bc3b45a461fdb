use elizaos_plugin_polymarket::actions::research::{
    build_research_prompt, format_research_action_result, format_research_results, research_market,
    research_market_at, CallbackAction, MarketResearch, ResearchActionResult, ResearchParams,
    ResearchRecommendation, ResearchResult, ResearchSource, ResearchStatus, ResearchStorage,
};

fn make_storage() -> ResearchStorage {
    ResearchStorage::new(3600)
}

fn params(id: &str, question: &str, force_refresh: bool) -> ResearchParams {
    ResearchParams {
        market_id: id.into(),
        market_question: question.into(),
        force_refresh,
        callback_action: CallbackAction::NotifyOnly,
    }
}

fn plain_result(summary: &str) -> ResearchResult {
    ResearchResult {
        summary: summary.into(),
        text: summary.into(),
        recommendation: None,
        sources: vec![],
        sources_count: 0,
    }
}

#[test]
fn test_storage_returns_none_for_unknown() {
    let storage = make_storage();
    assert!(storage.get_market_research("unknown").is_none());
}

#[test]
fn test_storage_mark_in_progress() {
    let mut storage = make_storage();
    storage.mark_in_progress("m1", "Will it rain?", "task-1");
    let res = storage.get_market_research("m1").unwrap();
    assert_eq!(res.status, ResearchStatus::InProgress);
    assert_eq!(res.task_id.as_deref(), Some("task-1"));
    assert!(res.started_at.is_some());
}

#[test]
fn test_storage_store_result() {
    let mut storage = make_storage();
    storage.mark_in_progress("m2", "Who will win?", "task-2");
    let result = ResearchResult {
        summary: "Yes is likely".into(),
        text: "Full analysis...".into(),
        recommendation: Some(ResearchRecommendation {
            should_trade: true,
            direction: Some("YES".into()),
            confidence: 85,
            reasoning: "Strong evidence".into(),
        }),
        sources: vec![ResearchSource {
            title: "Source 1".into(),
            url: "https://example.com".into(),
            snippet: None,
        }],
        sources_count: 1,
    };
    storage.store_result("m2", result, "res-1");
    let research = storage.get_market_research("m2").unwrap();
    assert_eq!(research.status, ResearchStatus::Completed);
    assert!(research.result.is_some());
    let rec = research.result.unwrap().recommendation.unwrap();
    assert!(rec.should_trade);
    assert_eq!(rec.confidence, 85);
}

#[test]
fn test_storage_mark_failed() {
    let mut storage = make_storage();
    storage.mark_in_progress("m3", "Test?", "task-3");
    storage.mark_failed("m3", "timeout");
    let research = storage.get_market_research("m3").unwrap();
    assert_eq!(research.status, ResearchStatus::Failed);
    assert_eq!(research.error_message.as_deref(), Some("timeout"));
}

#[test]
fn test_storage_delete() {
    let mut storage = make_storage();
    storage.mark_in_progress("m4", "Q?", "t");
    storage.delete_research("m4");
    assert!(storage.get_market_research("m4").is_none());
}

#[test]
fn test_storage_is_available() {
    let mut storage = make_storage();
    assert!(!storage.is_available("m5"));
    storage.mark_in_progress("m5", "Q?", "t");
    assert!(!storage.is_available("m5"));
    storage.store_result("m5", plain_result("s"), "r");
    assert!(storage.is_available("m5"));
}

#[test]
fn test_research_market_missing_params() {
    let mut storage = make_storage();
    let result = research_market(&params("", "", false), &mut storage);
    assert!(!result.success);
    assert_eq!(result.status, "error");
    assert!(result.error.is_some());
}

#[test]
fn test_research_market_starts_new() {
    let mut storage = make_storage();
    let result = research_market(&params("cond-123", "Will Bitcoin exceed 100k?", false), &mut storage);
    assert!(result.success);
    assert_eq!(result.status, "started");
    assert!(result.task_id.is_some());
    assert_eq!(result.estimated_remaining, Some(30));
}

#[test]
fn test_research_market_returns_cached() {
    let mut storage = make_storage();
    storage.mark_in_progress("cond-456", "Test?", "t");
    storage.store_result(
        "cond-456",
        ResearchResult {
            summary: "summary".into(),
            text: "text".into(),
            recommendation: Some(ResearchRecommendation {
                should_trade: true,
                direction: Some("YES".into()),
                confidence: 90,
                reasoning: "High confidence".into(),
            }),
            sources: vec![],
            sources_count: 0,
        },
        "res-1",
    );
    let result = research_market(&params("cond-456", "Test?", false), &mut storage);
    assert!(result.success);
    assert_eq!(result.status, "completed");
    assert!(result.cached);
    assert!(result.recommendation.is_some());
}

#[test]
fn test_research_market_returns_in_progress() {
    let mut storage = make_storage();
    storage.mark_in_progress("cond-789", "In progress?", "task-99");
    let result = research_market(&params("cond-789", "In progress?", false), &mut storage);
    assert!(result.success);
    assert_eq!(result.status, "in_progress");
    assert_eq!(result.task_id.as_deref(), Some("task-99"));
}

#[test]
fn test_research_market_returns_failed() {
    let mut storage = make_storage();
    storage.mark_in_progress("cond-f", "Failed?", "t");
    storage.mark_failed("cond-f", "API timeout");
    let result = research_market(&params("cond-f", "Failed?", false), &mut storage);
    assert!(!result.success);
    assert_eq!(result.status, "failed");
    assert_eq!(result.error.as_deref(), Some("API timeout"));
}

#[test]
fn test_research_market_force_refresh() {
    let mut storage = make_storage();
    storage.mark_in_progress("cond-r", "Refresh?", "t");
    storage.store_result("cond-r", plain_result("old"), "r");
    let result = research_market(&params("cond-r", "Refresh?", true), &mut storage);
    assert!(result.success);
    assert_eq!(result.status, "started");
}

#[test]
fn test_build_research_prompt() {
    let prompt = build_research_prompt("Will AI surpass humans?");
    assert!(prompt.contains("Will AI surpass humans?"));
    assert!(prompt.contains("Research goals"));
    assert!(prompt.contains("expert opinions"));
}

#[test]
fn test_format_started_result() {
    let result = ResearchActionResult {
        success: true,
        status: "started".into(),
        market_id: "m1".into(),
        market_question: "Test?".into(),
        task_id: Some("task-1".into()),
        recommendation: None,
        cached: false,
        completed_at: None,
        expires_at: None,
        elapsed_minutes: None,
        estimated_remaining: Some(30),
        error: None,
    };
    let text = format_research_action_result(&result);
    assert!(text.contains("Research Started"));
    assert!(text.contains("Test?"));
    assert!(text.contains("task-1"));
}

#[test]
fn test_format_completed_result() {
    let result = ResearchActionResult {
        success: true,
        status: "completed".into(),
        market_id: "m2".into(),
        market_question: "Done?".into(),
        task_id: None,
        recommendation: None,
        cached: true,
        completed_at: Some(1000),
        expires_at: Some(2000),
        elapsed_minutes: None,
        estimated_remaining: None,
        error: None,
    };
    let text = format_research_action_result(&result);
    assert!(text.contains("Research Complete"));
    assert!(text.contains("Cached"));
}

#[test]
fn test_format_research_results_with_recommendation() {
    let research = MarketResearch {
        market_id: "m1".into(),
        market_question: "Will it happen?".into(),
        status: ResearchStatus::Completed,
        task_id: None,
        research_id: None,
        started_at: None,
        completed_at: None,
        expires_at: None,
        result: Some(ResearchResult {
            summary: "Likely yes".into(),
            text: "Full text".into(),
            recommendation: Some(ResearchRecommendation {
                should_trade: true,
                direction: Some("YES".into()),
                confidence: 90,
                reasoning: "Strong data".into(),
            }),
            sources: vec![],
            sources_count: 5,
        }),
        error_message: None,
    };
    let text = format_research_results(&research);
    assert!(text.contains("Research Complete"));
    assert!(text.contains("Likely yes"));
    assert!(text.contains("🟢"));
    assert!(text.contains("YES"));
    assert!(text.contains("90%"));
    assert!(text.contains("5"));
}

#[test]
fn research_reads_back_and_expires_at_given_times() {
    let mut storage = make_storage();
    storage.mark_in_progress_at("m", "Q?", "t", 100);
    let r = storage.get_market_research_at("m", 100).unwrap();
    assert_eq!(r.status, ResearchStatus::InProgress);
    assert_eq!(r.started_at, Some(100));
    storage.store_result_at("m", plain_result("s"), "r", 200);
    let r = storage.get_market_research_at("m", 200).unwrap();
    assert_eq!(r.status, ResearchStatus::Completed);
    assert_eq!(r.expires_at, Some(200 + 3600));
    let r = storage.get_market_research_at("m", 200 + 3600 + 1).unwrap();
    assert_eq!(r.status, ResearchStatus::Expired);
    assert!(!storage.is_available_at("m", 200 + 3600 + 1));
    assert!(storage.is_available_at("m", 201));
}

#[test]
fn research_elapsed_minutes_counts_whole_minutes() {
    let mut storage = make_storage();
    storage.mark_in_progress_at("m", "Q?", "t", 1000);
    assert_eq!(storage.get_elapsed_minutes_at("m", 1000 + 125), Some(2));
    assert_eq!(storage.get_elapsed_minutes_at("other", 1000), None);
}

#[test]
fn research_market_at_reports_running_research() {
    let mut storage = make_storage();
    storage.mark_in_progress_at("m", "Q?", "task-7", 0);
    let r = research_market_at(&params("m", "Q?", false), &mut storage, 600, "new-task");
    assert_eq!(r.status, "in_progress");
    assert_eq!(r.task_id.as_deref(), Some("task-7"));
    assert_eq!(r.elapsed_minutes, Some(10));
}
