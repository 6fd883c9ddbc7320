use tributary::in_instructions::{
    Event, InInstructionsEvent, NetworkId, SeraiInInstructions, TemporalSerai,
};

#[test]
fn into_inner_returns_the_view() {
    let view = TemporalSerai { block: [5u8; 32] };
    let instructions = SeraiInInstructions(view);
    assert_eq!(instructions.into_inner().block, [5u8; 32]);
}

#[test]
fn batch_events_keeps_batches_in_order() {
    let instructions = SeraiInInstructions(TemporalSerai { block: [0u8; 32] });
    let first = InInstructionsEvent::Batch { network: NetworkId::Bitcoin, id: 0, block: [1u8; 32] };
    let second = InInstructionsEvent::Batch { network: NetworkId::Monero, id: 1, block: [2u8; 32] };
    let events = vec![
        Event::Other,
        Event::InInstructions(first),
        Event::InInstructions(InInstructionsEvent::Halt { network: NetworkId::Ethereum }),
        Event::Other,
        Event::InInstructions(second),
    ];
    assert_eq!(instructions.batch_events(&events), vec![first, second]);
}

#[test]
fn batch_events_of_nothing_is_empty() {
    let instructions = SeraiInInstructions(TemporalSerai { block: [0u8; 32] });
    assert!(instructions.batch_events(&vec![]).is_empty());
    assert!(instructions.batch_events(&vec![Event::Other]).is_empty());
}
