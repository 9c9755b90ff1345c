use deckgym::attacks::Mechanic;
use deckgym::effect_mechanic_map::EffectMechanicMap;

#[test]
fn test_flip_until_tails_family_effect_map_wiring() {
    let map = EffectMechanicMap::new();
    assert!(matches!(
        map.get("Flip a coin until you get tails. This attack does 30 more damage for each heads."),
        Some(Mechanic::FlipUntilTailsBonusDamage { damage_per_heads: 30 })
    ));
    assert!(matches!(
        map.get("Flip a coin until you get tails. This attack does 40 more damage for each heads."),
        Some(Mechanic::FlipUntilTailsBonusDamage { damage_per_heads: 40 })
    ));
    assert!(matches!(
        map.get("Flip a coin until you get tails. This attack does 40 damage for each heads."),
        Some(Mechanic::FlipUntilTailsDamage { damage_per_heads: 40 })
    ));
    assert!(matches!(
        map.get("Flip a coin until you get tails. This attack does 70 damage for each heads."),
        Some(Mechanic::FlipUntilTailsDamage { damage_per_heads: 70 })
    ));
}

#[test]
fn unknown_effect_text_has_no_mechanic() {
    let map = EffectMechanicMap::new();
    assert!(map.get("This text is on no card.").is_none());
}
