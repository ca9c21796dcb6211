use x264::{Encoder, Param, Picture};
use x264::Error;

#[test]
fn test_open() {
    let mut par = Param::new().set_dimension(640, 480);

    let mut enc = Encoder::open(&mut par).unwrap();

    let headers = enc.get_headers().unwrap();

    println!("Headers len {}", headers.as_bytes().len());
}

#[test]
fn test_picture() {
    let par = Param::new().set_dimension(640, 480);
    {
        let mut pic = Picture::from_param(&par).unwrap();
        {
            let mut p = pic.as_slice(0).unwrap().to_vec();
            p[0] = 1;
            pic.write_plane(0, &p).unwrap();
        }
        let p = pic.as_slice(0).unwrap();

        assert_eq!(p[0], 1);
    }
}

#[test]
fn test_encode() {
    let mut par = Param::new().set_dimension(640, 480);
    let mut enc = Encoder::open(&mut par).unwrap();
    let mut pic = Picture::from_param(&par).unwrap();

    let headers = enc.get_headers().unwrap();

    println!("Headers len {}", headers.as_bytes().len());

    for pts in 0..5 {
        pic = pic.set_timestamp(pts as i64);
        let ret = enc.encode(Some(&pic)).unwrap();
        match ret {
            Some((_, pts, dts)) => println!("Frame pts {}, dts {}", pts, dts),
            _ => (),
        }
    }

    while enc.delayed_frames() {
        let ret = enc.encode(None).unwrap();
        match ret {
            Some((_, pts, dts)) => println!("Frame pts {}, dts {}", pts, dts),
            _ => (),
        }
    }
}

#[test]
fn init_and_version() {
    let mut par = Param::new();
    par = par.set_dimension(480, 640);
    let enc = Encoder::open(&mut par).unwrap();
    drop(enc);
}

#[test]
fn headers_are_nonempty_for_vga() {
    let mut par = Param::new().set_dimension(480, 640);
    let mut enc = Encoder::open(&mut par).unwrap();
    let headers = enc.get_headers().unwrap();
    assert!(headers.as_bytes().len() > 0);
    // start code, then width and height, high byte first
    assert_eq!(headers.as_bytes(), &[0, 0, 0, 1, 2, 128, 1, 224]);
}

#[test]
fn flush_returns_every_submitted_timestamp() {
    let mut par = Param::new().set_dimension(640, 480);
    let mut enc = Encoder::open(&mut par).unwrap();
    let mut pic = Picture::from_param(&par).unwrap();

    let mut seen: Vec<i64> = Vec::new();
    for pts in 0..5 {
        pic = pic.set_timestamp(pts as i64);
        if let Some((_, out_pts, _)) = enc.encode(Some(&pic)).unwrap() {
            seen.push(out_pts);
        }
    }
    while enc.delayed_frames() {
        if let Some((_, out_pts, _)) = enc.encode(None).unwrap() {
            seen.push(out_pts);
        }
    }
    assert!(!enc.delayed_frames());
    seen.sort();
    assert_eq!(seen, vec![0, 1, 2, 3, 4]);
}

#[test]
fn zero_bframes_emits_immediately() {
    let mut par = Param::new().set_dimension(640, 480);
    par = par.param_parse("bframes", "0").unwrap();
    let mut enc = Encoder::open(&mut par).unwrap();
    let pic = Picture::from_param(&par).unwrap().set_timestamp(7);
    let out = enc.encode(Some(&pic)).unwrap();
    let (_, pts, dts) = out.expect("a session with no lookahead emits at once");
    assert_eq!(pts, 7);
    assert_eq!(dts, 7);
    assert!(!enc.delayed_frames());
}

#[test]
fn open_rejects_zero_dimensions() {
    let mut par = Param::new();
    assert_eq!(Encoder::open(&mut par).err().unwrap(), Error::OutOfMemory);
    let mut par = Param::new().set_dimension(0, 640);
    assert_eq!(Encoder::open(&mut par).err().unwrap(), Error::OutOfMemory);
    let mut par = Param::new().set_dimension(480, 0);
    assert_eq!(Encoder::open(&mut par).err().unwrap(), Error::OutOfMemory);
}

#[test]
fn encode_rejects_mismatched_frame() {
    let mut par = Param::new().set_dimension(480, 640);
    let mut enc = Encoder::open(&mut par).unwrap();
    let small = Param::new().set_dimension(240, 320);
    let pic = Picture::from_param(&small).unwrap();
    assert_eq!(enc.encode(Some(&pic)).err().unwrap(), Error::EncodingFailed);
    // the session is unchanged: nothing was buffered
    assert!(!enc.delayed_frames());
}

#[test]
fn flush_on_empty_session_returns_none() {
    let mut par = Param::new().set_dimension(480, 640);
    let mut enc = Encoder::open(&mut par).unwrap();
    assert!(!enc.delayed_frames());
    assert!(enc.encode(None).unwrap().is_none());
}
