use dyn_wallpaper::images::{blend_images, blend_pixels, BlendError, Dimensions, ImageFrame, Pixel};
use dyn_wallpaper::ratio::Ratio;

fn px(red: u8, green: u8, blue: u8) -> Pixel {
    Pixel { red, green, blue }
}

fn frame(width: u32, height: u32, pixels: Vec<Pixel>) -> ImageFrame {
    ImageFrame::new(width, height, pixels).expect("pixel count matches the size")
}

fn dawn() -> ImageFrame {
    frame(2, 2, vec![px(0, 100, 255), px(10, 20, 30), px(255, 255, 255), px(7, 0, 200)])
}

fn noon() -> ImageFrame {
    frame(2, 2, vec![px(255, 200, 0), px(30, 20, 10), px(0, 0, 0), px(8, 255, 100)])
}

#[test]
fn ratio_validity() {
    assert!(Ratio { num: 0, den: 1 }.is_valid());
    assert!(Ratio { num: 5, den: 5 }.is_valid());
    assert!(Ratio { num: 2, den: 7 }.is_valid());
    assert!(!Ratio { num: 3, den: 2 }.is_valid());
    assert!(!Ratio { num: 0, den: 0 }.is_valid());
    assert!(!Ratio { num: 1, den: 0 }.is_valid());
    assert_eq!(Ratio::zero(), Ratio { num: 0, den: 1 });
    assert_eq!(Ratio::one(), Ratio { num: 1, den: 1 });
}

#[test]
fn blend_pixels_halfway_rounds_down() {
    let mixed = blend_pixels(&px(0, 100, 255), &px(255, 200, 0), Ratio { num: 1, den: 2 });
    assert_eq!(mixed, Ok(px(127, 150, 127)));
}

#[test]
fn blend_pixels_quarter() {
    let mixed = blend_pixels(&px(0, 100, 255), &px(255, 200, 0), Ratio { num: 1, den: 4 });
    assert_eq!(mixed, Ok(px(63, 125, 191)));
}

#[test]
fn blend_pixels_three_quarters() {
    let mixed = blend_pixels(&px(0, 100, 255), &px(255, 200, 0), Ratio { num: 3, den: 4 });
    assert_eq!(mixed, Ok(px(191, 175, 63)));
}

#[test]
fn blend_pixels_is_the_same_for_equal_fractions() {
    let a = px(1, 2, 250);
    let b = px(200, 3, 4);
    let coarse = blend_pixels(&a, &b, Ratio { num: 1, den: 3 });
    let fine = blend_pixels(&a, &b, Ratio { num: 28_800, den: 86_400 });
    assert_eq!(coarse, fine);
    assert_eq!(coarse, Ok(px(67, 2, 168)));
}

#[test]
fn blend_pixels_with_the_largest_denominator() {
    let all = Ratio { num: u64::MAX, den: u64::MAX };
    let none = Ratio { num: 0, den: u64::MAX };
    let nearly = Ratio { num: u64::MAX - 1, den: u64::MAX };
    assert_eq!(blend_pixels(&px(255, 0, 9), &px(0, 255, 9), all), Ok(px(0, 255, 9)));
    assert_eq!(blend_pixels(&px(255, 0, 9), &px(0, 255, 9), none), Ok(px(255, 0, 9)));
    assert_eq!(blend_pixels(&px(255, 0, 9), &px(0, 255, 9), nearly), Ok(px(0, 254, 9)));
}

#[test]
fn blend_pixels_refuses_ratio_above_one() {
    let amount = Ratio { num: 3, den: 2 };
    assert_eq!(
        blend_pixels(&px(1, 2, 3), &px(4, 5, 6), amount),
        Err(BlendError::InvalidRatio { amount })
    );
}

#[test]
fn blend_pixels_refuses_undefined_ratio() {
    let amount = Ratio { num: 0, den: 0 };
    assert_eq!(
        blend_pixels(&px(1, 2, 3), &px(4, 5, 6), amount),
        Err(BlendError::InvalidRatio { amount })
    );
}

#[test]
fn frame_needs_one_pixel_per_place() {
    assert!(ImageFrame::new(2, 2, vec![px(0, 0, 0); 3]).is_none());
    assert!(ImageFrame::new(2, 2, vec![px(0, 0, 0); 5]).is_none());
    assert!(ImageFrame::new(0, 7, vec![px(0, 0, 0)]).is_none());
    let made = ImageFrame::new(3, 1, vec![px(1, 1, 1), px(2, 2, 2), px(3, 3, 3)]).unwrap();
    assert_eq!(made.width(), 3);
    assert_eq!(made.height(), 1);
    assert_eq!(made.dimensions(), Dimensions { width: 3, height: 1 });
    assert_eq!(made.pixels(), &vec![px(1, 1, 1), px(2, 2, 2), px(3, 3, 3)]);
    let empty = ImageFrame::new(0, 7, Vec::new()).unwrap();
    assert_eq!(empty.pixels().len(), 0);
}

#[test]
fn blend_at_zero_is_the_first_frame() {
    let blended = blend_images(&dawn(), &noon(), Ratio { num: 0, den: 400 });
    assert_eq!(blended, Ok(dawn()));
}

#[test]
fn blend_at_one_is_the_second_frame() {
    let blended = blend_images(&dawn(), &noon(), Ratio { num: 400, den: 400 });
    assert_eq!(blended, Ok(noon()));
}

#[test]
fn blend_images_mixes_pixel_by_pixel() {
    let blended = blend_images(&dawn(), &noon(), Ratio { num: 1, den: 2 }).unwrap();
    assert_eq!(blended.dimensions(), Dimensions { width: 2, height: 2 });
    assert_eq!(
        blended.pixels(),
        &vec![px(127, 150, 127), px(20, 20, 20), px(127, 127, 127), px(7, 127, 150)]
    );
}

#[test]
fn blend_images_leaves_its_inputs_alone() {
    let first = dawn();
    let second = noon();
    let _ = blend_images(&first, &second, Ratio { num: 1, den: 3 });
    assert_eq!(first, dawn());
    assert_eq!(second, noon());
}

#[test]
fn blended_channels_lie_between_their_inputs() {
    let first = dawn();
    let second = noon();
    for num in 0..=17u64 {
        let blended = blend_images(&first, &second, Ratio { num, den: 17 }).unwrap();
        for (i, out) in blended.pixels().iter().enumerate() {
            let a = first.pixels()[i];
            let b = second.pixels()[i];
            assert!(a.red.min(b.red) <= out.red && out.red <= a.red.max(b.red));
            assert!(a.green.min(b.green) <= out.green && out.green <= a.green.max(b.green));
            assert!(a.blue.min(b.blue) <= out.blue && out.blue <= a.blue.max(b.blue));
        }
    }
}

#[test]
fn blend_images_refuses_frames_of_different_size() {
    let wide = frame(2, 1, vec![px(1, 1, 1), px(2, 2, 2)]);
    let tall = frame(1, 2, vec![px(1, 1, 1), px(2, 2, 2)]);
    let expected = Err(BlendError::DimensionMismatch {
        first: Dimensions { width: 2, height: 1 },
        second: Dimensions { width: 1, height: 2 },
    });
    assert_eq!(blend_images(&wide, &tall, Ratio { num: 0, den: 1 }), expected);
    assert_eq!(blend_images(&wide, &tall, Ratio { num: 1, den: 2 }), expected);
    assert_eq!(blend_images(&wide, &tall, Ratio { num: 1, den: 1 }), expected);
}

#[test]
fn mismatch_is_reported_before_a_bad_ratio() {
    let small = frame(1, 1, vec![px(1, 1, 1)]);
    let large = frame(2, 2, vec![px(0, 0, 0); 4]);
    assert_eq!(
        blend_images(&small, &large, Ratio { num: 9, den: 2 }),
        Err(BlendError::DimensionMismatch {
            first: Dimensions { width: 1, height: 1 },
            second: Dimensions { width: 2, height: 2 },
        })
    );
}

#[test]
fn blend_images_refuses_a_bad_ratio() {
    let amount = Ratio { num: 5, den: 4 };
    assert_eq!(
        blend_images(&dawn(), &noon(), amount),
        Err(BlendError::InvalidRatio { amount })
    );
    let undefined = Ratio { num: 0, den: 0 };
    assert_eq!(
        blend_images(&dawn(), &noon(), undefined),
        Err(BlendError::InvalidRatio { amount: undefined })
    );
}

#[test]
fn blend_of_empty_frames_is_empty() {
    let a = frame(0, 3, Vec::new());
    let b = frame(0, 3, Vec::new());
    let blended = blend_images(&a, &b, Ratio { num: 1, den: 2 }).unwrap();
    assert_eq!(blended.dimensions(), Dimensions { width: 0, height: 3 });
    assert!(blended.pixels().is_empty());
}

#[test]
fn frame_from_packed_bytes() {
    let bytes = vec![1, 2, 3, 4, 5, 6, 7, 8, 9, 10, 11, 12];
    let made = ImageFrame::from_rgb8(2, 2, &bytes).unwrap();
    assert_eq!(made.dimensions(), Dimensions { width: 2, height: 2 });
    assert_eq!(made.pixels(), &vec![px(1, 2, 3), px(4, 5, 6), px(7, 8, 9), px(10, 11, 12)]);
    assert_eq!(made, frame(2, 2, vec![px(1, 2, 3), px(4, 5, 6), px(7, 8, 9), px(10, 11, 12)]));
}

#[test]
fn frame_needs_three_bytes_per_place() {
    assert!(ImageFrame::from_rgb8(2, 2, &vec![0; 11]).is_none());
    assert!(ImageFrame::from_rgb8(2, 2, &vec![0; 13]).is_none());
    assert!(ImageFrame::from_rgb8(2, 2, &vec![0; 4]).is_none());
    assert!(ImageFrame::from_rgb8(u32::MAX, u32::MAX, &vec![0; 3]).is_none());
    assert!(ImageFrame::from_rgb8(0, 0, &Vec::new()).is_some());
}

#[test]
fn frame_to_packed_bytes() {
    let made = frame(1, 3, vec![px(255, 0, 1), px(2, 254, 3), px(4, 5, 253)]);
    assert_eq!(made.to_rgb8(), vec![255, 0, 1, 2, 254, 3, 4, 5, 253]);
    assert_eq!(frame(0, 0, Vec::new()).to_rgb8(), Vec::<u8>::new());
}

#[test]
fn packing_and_unpacking_undo_each_other() {
    let bytes: Vec<u8> = (0..=23).collect();
    let made = ImageFrame::from_rgb8(4, 2, &bytes).unwrap();
    assert_eq!(made.to_rgb8(), bytes);
    assert_eq!(ImageFrame::from_rgb8(2, 2, &dawn().to_rgb8()), Some(dawn()));
}
