use sine_synth::input::{key_index, KEY_COUNT};

#[test]
fn every_playable_key_maps_to_its_semitone() {
    let keys = [
        'z', 's', 'x', 'c', 'f', 'v', 'g', 'b', 'n', 'j', 'm', 'k', ',', 'l', '.', '/', '\'',
    ];
    assert_eq!(keys.len(), KEY_COUNT);
    for (i, ch) in keys.iter().enumerate() {
        assert_eq!(key_index(*ch), Some(i));
    }
}

#[test]
fn unmapped_keys_mean_note_off() {
    for ch in ['a', 'q', 'w', 'e', 'y', ' ', '1', ';', 'Z', 'S'] {
        assert_eq!(key_index(ch), None);
    }
}
