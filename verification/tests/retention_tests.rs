use projectying::retention::{agent_records_to_prune_for_limit, pick_smallest, select_agent_records_to_prune, select_output_groups_to_prune};
use projectying::tools::AgentStatusValue;

fn groups(items: &[(&str, u128)]) -> Vec<(String, u128)> {
    items.iter().map(|(k, t)| (k.to_string(), *t)).collect()
}

#[test]
fn oldest_export_group_is_pruned_first() {
    // three groups modified at the same time: the key decides
    let g = groups(&[("a", 5), ("b", 5), ("c", 5)]);
    assert_eq!(select_output_groups_to_prune(&g, 3, 1, &vec![]), vec!["a".to_string()]);
}

#[test]
fn nothing_is_pruned_below_the_limit() {
    let g = groups(&[("a", 1), ("b", 2)]);
    assert!(select_output_groups_to_prune(&g, 3, 1, &vec![]).is_empty());
}

#[test]
fn protected_groups_are_kept_and_age_decides() {
    let g = groups(&[("x", 30), ("y", 10), ("z", 20), ("w", 40)]);
    let removed = select_output_groups_to_prune(&g, 2, 2, &vec!["y".to_string()]);
    assert_eq!(removed, vec!["z".to_string(), "x".to_string()]);
    let all = select_output_groups_to_prune(&g, 1, 10, &vec![]);
    assert_eq!(all, vec!["y".to_string(), "z".to_string(), "x".to_string(), "w".to_string()]);
}

#[test]
fn pick_smallest_orders_by_rank_then_key() {
    let g = groups(&[("b", 1), ("a", 1), ("c", 0)]);
    assert_eq!(pick_smallest(&g, &vec![true, true, true], 3), vec![2, 1, 0]);
    assert_eq!(pick_smallest(&g, &vec![true, false, true], 5), vec![2, 0]);
    assert!(pick_smallest(&g, &vec![true, true, true], 0).is_empty());
}

#[test]
fn oldest_finished_agents_go_first() {
    let agents = vec![
        ("agent-10".to_string(), AgentStatusValue::Completed(None)),
        ("agent-2".to_string(), AgentStatusValue::Shutdown),
        ("agent-3".to_string(), AgentStatusValue::Running),
        ("custom".to_string(), AgentStatusValue::NotFound),
    ];
    assert_eq!(select_agent_records_to_prune(&agents, 2), vec!["agent-2".to_string(), "agent-10".to_string()]);
    assert_eq!(
        select_agent_records_to_prune(&agents, 0),
        vec!["agent-2".to_string(), "agent-10".to_string(), "custom".to_string()]
    );
    assert!(select_agent_records_to_prune(&agents, 4).is_empty());
}

#[test]
fn retention_limit_is_clamped_and_drops_the_excess() {
    let mut agents: Vec<(String, AgentStatusValue)> = (1..=12)
        .map(|n| (format!("agent-{n}"), AgentStatusValue::Completed(None)))
        .collect();
    agents[0].1 = AgentStatusValue::Running;
    let (limit, removed) = agent_records_to_prune_for_limit(&agents, 3);
    assert_eq!(limit, 10);
    assert_eq!(removed, vec!["agent-2".to_string(), "agent-3".to_string()]);
    for a in agents.iter_mut().skip(2) {
        a.1 = AgentStatusValue::Running;
    }
    let (limit, removed) = agent_records_to_prune_for_limit(&agents, 500);
    assert_eq!(limit, 100);
    assert!(removed.is_empty());
    let (_, removed) = agent_records_to_prune_for_limit(&agents, 0);
    assert_eq!(removed, vec!["agent-2".to_string()]);
}
