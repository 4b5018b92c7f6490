use core_pipeline::entity::Entity;

const CASES: [(u32, u32); 6] =
    [(0, 0), (1, 0), (0, 1), (7, 3), (u32::MAX, 0), (u32::MAX, u32::MAX)];

#[test]
fn bits_hold_the_generation_above_the_index() {
    assert_eq!(Entity { index: 0, generation: 0 }.to_bits(), 0);
    assert_eq!(Entity { index: 5, generation: 0 }.to_bits(), 5);
    assert_eq!(Entity { index: 0, generation: 1 }.to_bits(), 0x1_0000_0000);
    assert_eq!(Entity { index: 7, generation: 3 }.to_bits(), 0x3_0000_0007);
    assert_eq!(Entity { index: u32::MAX, generation: u32::MAX }.to_bits(), u64::MAX);
    assert_eq!(Entity::from_bits(0x3_0000_0007), Entity { index: 7, generation: 3 });
    assert_eq!(Entity::from_bits(u64::MAX), Entity { index: u32::MAX, generation: u32::MAX });
}

#[test]
fn bits_round_trip() {
    for (index, generation) in CASES {
        let entity = Entity { index, generation };
        assert_eq!(Entity::from_bits(entity.to_bits()), entity);
    }
    for bits in [0u64, 1, 0xffff_ffff, 0x1_0000_0000, 0xdead_beef_0bad_f00d, u64::MAX] {
        assert_eq!(Entity::from_bits(bits).to_bits(), bits);
    }
}

#[test]
fn bits_agree_with_the_entities_of_the_ecs() {
    for (index, generation) in CASES {
        let plain = Entity { index, generation };
        let ecs = bevy_ecs::entity::Entity::from_bits(plain.to_bits());
        assert_eq!(ecs.index(), index);
        assert_eq!(ecs.generation(), generation);
        assert_eq!(Entity::from_bits(ecs.to_bits()), plain);
    }
    for index in [0u32, 1, 41, u32::MAX] {
        let ecs = bevy_ecs::entity::Entity::from_raw(index);
        assert_eq!(Entity::from_raw(index).to_bits(), ecs.to_bits());
        assert_eq!(Entity::from_raw(index), Entity { index: ecs.index(), generation: ecs.generation() });
    }
}
