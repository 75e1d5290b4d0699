use tag_sim::agent::Agent;
use tag_sim::geometry::Position;
use tag_sim::tag::make_agents_tag;

fn agent(id: usize, x: u32, y: u32, is_it: bool, has_immunity: bool) -> Agent {
    Agent {
        id,
        position: Position { x, y },
        is_it,
        has_immunity,
        x_bound: 10,
        y_bound: 10,
    }
}

#[test]
fn test_position_distance() {
    assert_eq!(
        Position { x: 1, y: 1 }.distance(&Position { x: 0, y: 0 }),
        2
    );
    assert_eq!(
        Position { x: 0, y: 1 }.distance(&Position { x: 0, y: 0 }),
        1
    );
    assert_eq!(
        Position { x: 1, y: 1 }.distance(&Position { x: 2, y: 2 }),
        2
    );
    assert_eq!(
        Position { x: 1, y: 1 }.distance(&Position { x: 1, y: 1 }),
        0
    );
}

#[test]
fn test_make_agents_tag() {
    let mut agents = vec![agent(0, 1, 1, true, false), agent(1, 0, 1, false, false)];

    agents = make_agents_tag(agents);

    assert!(!agents[0].is_it, "Expecting agent 0 to not be it");
    assert!(agents[1].is_it, "Expecting agent 1 to be it");
    assert!(agents[0].has_immunity, "Expecting agent 0 to have immunity");
}

#[test]
fn test_make_agents_tag_two_targets() {
    let mut agents = vec![
        agent(0, 1, 1, true, false),
        agent(1, 0, 1, false, false),
        agent(2, 0, 1, false, false),
    ];

    agents = make_agents_tag(agents);

    // count the agents that are 'It'
    agents = agents.into_iter().filter(|agent| agent.is_it).collect();
    assert_eq!(agents.len(), 1, "Only expecting 1 agent to be it");
}

#[test]
fn test_make_agents_tag_no_target() {
    let mut agents = vec![agent(0, 1, 1, true, false), agent(1, 0, 0, false, false)];

    agents = make_agents_tag(agents);

    assert!(agents[0].is_it, "Expecting agent 0 to still be it");
    assert!(!agents[1].is_it, "Expecting agent 1 to still not be it");
}

#[test]
fn test_make_agents_tag_has_immunity() {
    let mut agents = vec![agent(0, 1, 1, true, false), agent(1, 1, 0, false, true)];

    agents = make_agents_tag(agents);

    assert!(agents[0].is_it, "Expecting agent 0 to still be it");
    assert!(!agents[1].is_it, "Expecting agent 1 to still not be it");
}

#[test]
fn test_make_agents_tag_has_immunity_two_targets() {
    let mut agents = vec![
        agent(0, 1, 1, true, false),
        agent(1, 1, 0, false, true),
        agent(1, 0, 1, false, false),
    ];

    agents = make_agents_tag(agents);

    assert!(!agents[0].is_it, "Expecting agent 0 to not be it");
    assert!(!agents[1].is_it, "Expecting agent 1 to not be it");
    assert!(agents[2].is_it, "Expecting agent 2 to be it");
    assert!(agents[0].has_immunity, "Expecting agent 0 to have immunity");
    assert!(
        !agents[1].has_immunity,
        "Expecting agent 1 to not have immunity"
    );
    assert!(
        !agents[2].has_immunity,
        "Expecting agent 2 to not have immunity"
    );
}
