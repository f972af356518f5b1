use classcii::frame::FrameBuffer;
use classcii::source::delay_ms;
use classcii::source::load_image;
use classcii::source::GifFrame;
use classcii::source::GifSource;
use classcii::source::ImageSource;
use classcii::source::SourceError;

fn frame(w: u32, h: u32, fill: u8, delay: (u32, u32)) -> GifFrame {
    GifFrame {
        data: vec![fill; (w * h * 4) as usize],
        width: w,
        height: h,
        delay_numer: delay.0,
        delay_denom: delay.1,
    }
}

fn animation() -> GifSource {
    let frames = vec![
        frame(2, 3, 10, (40, 1)),
        frame(2, 3, 20, (100, 2)),
        frame(2, 3, 30, (5, 1)),
    ];
    GifSource::try_new(&frames, 1_000).unwrap().unwrap()
}

#[test]
fn image_source_serves_its_frame() {
    let data: Vec<u8> = (0..24).collect();
    let mut source = ImageSource::new(data.clone(), 2, 3).unwrap();
    assert_eq!(source.native_size(), (2, 3));
    assert!(!source.is_live());
    for _ in 0..3 {
        let f = source.next_frame().unwrap();
        assert_eq!(f.data, data);
        assert_eq!((f.width, f.height), (2, 3));
        assert!(!f.is_camera_baked);
        assert_eq!(f.pixel(1, 2), (20, 21, 22, 23));
    }
}

#[test]
fn image_source_rejects_a_wrong_size() {
    for len in [0usize, 23, 25, 6] {
        let r = ImageSource::new(vec![0; len], 2, 3);
        assert!(matches!(r, Err(SourceError::SizeMismatch(0))));
    }
    assert!(ImageSource::new(Vec::new(), 0, 7).is_ok());
    assert!(ImageSource::new(vec![0; 4], u32::MAX, u32::MAX).is_err());
}

#[test]
fn load_image_wraps_the_samples() {
    let data: Vec<u8> = (100..116).collect();
    let f: FrameBuffer = load_image(data.clone(), 4, 1).unwrap();
    assert_eq!(f.data, data);
    assert_eq!((f.width, f.height), (4, 1));
    assert!(!f.is_camera_baked);
    assert_eq!(load_image(data, 1, 5).unwrap_err(), SourceError::SizeMismatch(0));
}

#[test]
fn frame_delays() {
    assert_eq!(delay_ms(40, 1), 40);
    assert_eq!(delay_ms(100, 3), 33);
    assert_eq!(delay_ms(5, 1), 10);
    assert_eq!(delay_ms(0, 1), 10);
    assert_eq!(delay_ms(10, 1), 10);
    assert_eq!(delay_ms(7, 0), 100);
    assert_eq!(delay_ms(0, 0), 100);
    assert_eq!(delay_ms(u32::MAX, 1), u32::MAX as u64);
}

#[test]
fn still_gifs_are_no_animation() {
    assert!(GifSource::try_new(&Vec::new(), 0).unwrap().is_none());
    assert!(GifSource::try_new(&vec![frame(2, 2, 1, (10, 1))], 0).unwrap().is_none());
    // a single frame is not even looked at
    let mut bad = frame(2, 2, 1, (10, 1));
    bad.data.pop();
    assert!(GifSource::try_new(&vec![bad], 0).unwrap().is_none());
}

#[test]
fn animation_reports_the_first_bad_frame() {
    let mut frames = vec![
        frame(2, 2, 1, (10, 1)),
        frame(2, 2, 2, (10, 1)),
        frame(2, 2, 3, (10, 1)),
        frame(2, 2, 4, (10, 1)),
    ];
    frames[2].data.push(0);
    frames[3].width = 9;
    assert_eq!(GifSource::try_new(&frames, 0).unwrap_err(), SourceError::SizeMismatch(2));
    frames[0].height = 1;
    assert_eq!(GifSource::try_new(&frames, 0).unwrap_err(), SourceError::SizeMismatch(0));
}

#[test]
fn animation_holds_every_frame() {
    let mut source = animation();
    assert_eq!(source.frame_count(), 3);
    assert_eq!(source.native_size(), (2, 3));
    assert!(source.is_live());
    let f = source.next_frame(1_000).unwrap();
    assert_eq!(f.data, vec![10; 24]);
    assert_eq!((f.width, f.height), (2, 3));
    let frames = vec![frame(5, 1, 0, (20, 1)), frame(2, 2, 0, (20, 1))];
    let two = GifSource::try_new(&frames, 0).unwrap().unwrap();
    assert_eq!(two.frame_count(), 2);
    assert_eq!(two.native_size(), (5, 1));
}

#[test]
fn animation_advances_when_the_delay_has_passed() {
    let mut source = animation();
    // frame 0 is up for 40 ms from 1000
    assert_eq!(source.next_frame(1_000).unwrap().data[0], 10);
    assert_eq!(source.next_frame(1_039).unwrap().data[0], 10);
    assert_eq!(source.next_frame(1_040).unwrap().data[0], 20);
    // frame 1 is up for 50 ms from 1040
    assert_eq!(source.next_frame(1_089).unwrap().data[0], 20);
    assert_eq!(source.next_frame(1_090).unwrap().data[0], 30);
    // frame 2 asks for 5 ms and gets 10; then the loop starts over
    assert_eq!(source.next_frame(1_099).unwrap().data[0], 30);
    assert_eq!(source.next_frame(1_100).unwrap().data[0], 10);
    assert_eq!(source.next_frame(1_139).unwrap().data[0], 10);
}

#[test]
fn animation_advances_one_frame_per_request() {
    let mut source = animation();
    assert_eq!(source.next_frame(9_000).unwrap().data[0], 20);
    assert_eq!(source.next_frame(9_000).unwrap().data[0], 20);
    assert_eq!(source.next_frame(u64::MAX).unwrap().data[0], 30);
    assert_eq!(source.next_frame(u64::MAX).unwrap().data[0], 30);
}

#[test]
fn animation_waits_when_the_clock_runs_back() {
    let mut source = animation();
    assert_eq!(source.next_frame(0).unwrap().data[0], 10);
    assert_eq!(source.next_frame(999).unwrap().data[0], 10);
    assert_eq!(source.next_frame(1_040).unwrap().data[0], 20);
    assert_eq!(source.next_frame(0).unwrap().data[0], 20);
}
