use release_dashboard::deployment::Deployment;

fn values(deployment: &Deployment) -> Vec<bool> {
    let mut out = Vec::new();
    for i in 0..deployment.len() {
        out.push(deployment.option(i).unwrap().value());
    }
    out
}

fn labels(deployment: &Deployment) -> Vec<String> {
    let mut out = Vec::new();
    for i in 0..deployment.len() {
        out.push(deployment.option(i).unwrap().label().clone());
    }
    out
}

#[test]
fn default_checklist_has_three_named_entries() {
    let deployment = Deployment::new();
    assert_eq!(deployment.len(), 3);
    assert_eq!(
        labels(&deployment),
        vec![
            "Send Release Mail".to_string(),
            "Pipeline A".to_string(),
            "Pipeline B".to_string()
        ]
    );
    assert_eq!(values(&deployment), vec![false, true, true]);
    assert_eq!(deployment.current_option(), 0);
    assert!(!deployment.deployment_running());
}

#[test]
fn down_toggle_down_toggle_switches_both_pipelines_off() {
    let mut deployment = Deployment::new();
    deployment.cursor_down();
    deployment.toggle();
    deployment.cursor_down();
    deployment.toggle();
    assert_eq!(deployment.current_option(), 2);
    assert_eq!(values(&deployment), vec![false, false, false]);
}

#[test]
fn up_from_the_first_entry_goes_to_the_last() {
    let mut deployment = Deployment::new();
    deployment.cursor_up();
    assert_eq!(deployment.current_option(), 2);
}

#[test]
fn down_from_the_last_entry_goes_to_the_first() {
    let mut deployment = Deployment::new();
    deployment.cursor_down();
    deployment.cursor_down();
    assert_eq!(deployment.current_option(), 2);
    deployment.cursor_down();
    assert_eq!(deployment.current_option(), 0);
}

#[test]
fn cursor_moves_one_entry_at_a_time() {
    let mut deployment = Deployment::new();
    deployment.cursor_down();
    assert_eq!(deployment.current_option(), 1);
    deployment.cursor_down();
    assert_eq!(deployment.current_option(), 2);
    deployment.cursor_up();
    assert_eq!(deployment.current_option(), 1);
    deployment.cursor_up();
    assert_eq!(deployment.current_option(), 0);
}

#[test]
fn cursor_stays_on_an_entry_over_many_moves() {
    let mut deployment = Deployment::new();
    let mut expected: usize = 0;
    for step in 0..200usize {
        if step % 3 == 0 || step % 7 == 0 {
            deployment.cursor_up();
            expected = (expected + 3 - 1) % 3;
        } else {
            deployment.cursor_down();
            expected = (expected + 1) % 3;
        }
        assert!(deployment.current_option() < deployment.len());
        assert_eq!(deployment.current_option(), expected);
        assert_eq!(deployment.len(), 3);
    }
}

#[test]
fn cursor_moves_leave_the_entries_alone() {
    let mut deployment = Deployment::new();
    deployment.cursor_down();
    deployment.cursor_up();
    deployment.cursor_up();
    assert_eq!(values(&deployment), vec![false, true, true]);
    assert!(!deployment.deployment_running());
}

#[test]
fn toggle_switches_only_the_entry_under_the_cursor() {
    let mut deployment = Deployment::new();
    deployment.toggle();
    assert_eq!(values(&deployment), vec![true, true, true]);
    deployment.cursor_down();
    deployment.toggle();
    assert_eq!(values(&deployment), vec![true, false, true]);
    assert_eq!(deployment.current_option(), 1);
    assert_eq!(
        labels(&deployment),
        vec![
            "Send Release Mail".to_string(),
            "Pipeline A".to_string(),
            "Pipeline B".to_string()
        ]
    );
}

#[test]
fn toggling_twice_restores_every_entry() {
    for position in 0..3usize {
        let mut deployment = Deployment::new();
        for _ in 0..position {
            deployment.cursor_down();
        }
        let before = values(&deployment);
        deployment.toggle();
        assert_ne!(values(&deployment), before);
        deployment.toggle();
        assert_eq!(values(&deployment), before);
        assert_eq!(deployment.current_option(), position);
    }
}

#[test]
fn start_is_kept_and_repeating_it_changes_nothing() {
    let mut deployment = Deployment::new();
    assert!(!deployment.deployment_running());
    deployment.start();
    assert!(deployment.deployment_running());
    deployment.start();
    assert!(deployment.deployment_running());
    deployment.cursor_down();
    deployment.toggle();
    deployment.cursor_up();
    assert!(deployment.deployment_running());
    assert_eq!(values(&deployment), vec![false, false, true]);
}

#[test]
fn there_is_no_entry_past_the_last() {
    let deployment = Deployment::new();
    assert!(deployment.option(2).is_some());
    assert!(deployment.option(3).is_none());
    assert!(deployment.option(usize::MAX).is_none());
}

#[test]
fn release_mail_follows_the_first_entry() {
    let mut deployment = Deployment::new();
    assert!(!deployment.sends_release_mail());
    deployment.toggle();
    assert!(deployment.sends_release_mail());
    deployment.cursor_down();
    deployment.toggle();
    assert!(deployment.sends_release_mail());
    deployment.cursor_up();
    deployment.toggle();
    assert!(!deployment.sends_release_mail());
}
