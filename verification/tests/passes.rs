use pixel_iter::exclusive::assign_channels;
use pixel_iter::exclusive::exclusive_values;
use pixel_iter::owned::owned_values;
use pixel_iter::pixel::Pixel;
use pixel_iter::shared::shared_values;

#[test]
fn owned_pass_yields_channels_then_exhausts() {
    let p = Pixel::new(54, 23, 74);
    let mut it = p.into_iter();
    assert_eq!(it.next(), Some(54));
    assert_eq!(it.next(), Some(23));
    assert_eq!(it.next(), Some(74));
    assert_eq!(it.next(), None);
    assert_eq!(it.next(), None);
    assert_eq!(it.next(), None);
}

#[test]
fn shared_pass_yields_channels_then_exhausts() {
    let p = Pixel::new(54, 23, 74);
    let mut it = p.iter();
    assert_eq!(it.next(), Some(54));
    assert_eq!(it.next(), Some(23));
    assert_eq!(it.next(), Some(74));
    assert_eq!(it.next(), None);
    assert_eq!(it.next(), None);
    assert_eq!(p, Pixel { r: 54, g: 23, b: 74 });
}

#[test]
fn exclusive_pass_yields_channels_then_exhausts() {
    let mut p = Pixel::new(54, 23, 74);
    let mut it = p.iter_mut();
    assert_eq!(it.next().map(|c| *c), Some(54));
    assert_eq!(it.next().map(|c| *c), Some(23));
    assert_eq!(it.next().map(|c| *c), Some(74));
    assert!(it.next().is_none());
    assert!(it.next().is_none());
    assert_eq!(p, Pixel { r: 54, g: 23, b: 74 });
}

#[test]
fn exclusive_handles_mutate_record_in_place() {
    let mut p = Pixel::new(54, 23, 74);
    {
        let mut it = p.iter_mut();
        if let Some(c) = it.next() {
            *c = 100;
        }
        if let Some(c) = it.next() {
            *c = -5;
        }
        // the third handle is left unwritten
        let _ = it.next();
        assert!(it.next().is_none());
    }
    // an independent shared read reflects the in-place mutations
    assert_eq!(p, Pixel { r: 100, g: -5, b: 74 });
    assert_eq!(shared_values(&p), vec![100, -5, 74]);
}

#[test]
fn assign_channels_overwrites_every_field() {
    let mut p = Pixel::new(54, 23, 74);
    assign_channels(&mut p, 1, -2, 3);
    assert_eq!(p, Pixel { r: 1, g: -2, b: 3 });
    assert_eq!(shared_values(&p), vec![1, -2, 3]);
}

#[test]
fn shared_pass_twice_yields_identical_sequences() {
    let p = Pixel::new(54, 23, 74);
    let first = shared_values(&p);
    let second = shared_values(&p);
    assert_eq!(first, second);
    assert_eq!(first, vec![54, 23, 74]);
}

#[test]
fn exclusive_values_reads_without_modifying() {
    let mut p = Pixel::new(-7, 0, 7);
    assert_eq!(exclusive_values(&mut p), vec![-7, 0, 7]);
    assert_eq!(p, Pixel { r: -7, g: 0, b: 7 });
}

#[test]
fn passes_cover_extreme_channel_values() {
    let p = Pixel::new(i8::MIN, i8::MAX, 0);
    assert_eq!(shared_values(&p), vec![i8::MIN, i8::MAX, 0]);
    assert_eq!(owned_values(p), vec![i8::MIN, i8::MAX, 0]);
}

#[test]
fn scenario_three_passes_over_54_23_74() {
    let mut p = Pixel::new(54, 23, 74);

    // exclusive-view pass: three values in order, then exhaustion
    let mut seen = Vec::new();
    let mut it = p.iter_mut();
    while let Some(c) = it.next() {
        seen.push(*c);
    }
    assert!(it.next().is_none());
    assert_eq!(seen, vec![54, 23, 74]);

    // shared-view pass on the unchanged record
    let mut seen = Vec::new();
    let mut it = p.iter();
    while let Some(c) = it.next() {
        seen.push(c);
    }
    assert!(it.next().is_none());
    assert_eq!(seen, vec![54, 23, 74]);

    // consuming pass; the record moves away for good
    let mut seen = Vec::new();
    let mut it = p.into_iter();
    while let Some(c) = it.next() {
        seen.push(c);
    }
    assert!(it.next().is_none());
    assert_eq!(seen, vec![54, 23, 74]);
}
