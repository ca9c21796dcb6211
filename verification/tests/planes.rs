use x264::{Colorspace, Param, Picture};
use x264::Error;

fn plane_sizes(csp: Colorspace, high_depth: bool, width: usize, height: usize) -> Vec<usize> {
    let par = Param::new()
        .set_dimension(height, width)
        .set_colorspace(csp, high_depth);
    let pic = Picture::from_param(&par).unwrap();
    let mut sizes = Vec::new();
    for i in 0..pic.plane_count() {
        sizes.push(pic.as_slice(i).unwrap().len());
    }
    sizes
}

fn total_size(csp: Colorspace, high_depth: bool, width: usize, height: usize) -> usize {
    plane_sizes(csp, high_depth, width, height).iter().sum()
}

#[test]
fn i420_plane_sizes_for_vga() {
    assert_eq!(
        plane_sizes(Colorspace::I420, false, 640, 480),
        vec![307200, 76800, 76800]
    );
}

#[test]
fn planar_yuv_totals_match_sampling_factors() {
    let w = 640;
    let h = 480;
    // 4:2:0: one luma sample plus a quarter of chroma each: 3/2 per pixel
    assert_eq!(total_size(Colorspace::I420, false, w, h), w * h * 3 / 2);
    assert_eq!(total_size(Colorspace::YV12, false, w, h), w * h * 3 / 2);
    assert_eq!(total_size(Colorspace::NV12, false, w, h), w * h * 3 / 2);
    assert_eq!(total_size(Colorspace::NV21, false, w, h), w * h * 3 / 2);
    // 4:2:2: two samples per pixel
    assert_eq!(total_size(Colorspace::I422, false, w, h), w * h * 2);
    assert_eq!(total_size(Colorspace::YV16, false, w, h), w * h * 2);
    assert_eq!(total_size(Colorspace::NV16, false, w, h), w * h * 2);
    // 4:4:4: three samples per pixel
    assert_eq!(total_size(Colorspace::I444, false, w, h), w * h * 3);
    assert_eq!(total_size(Colorspace::YV24, false, w, h), w * h * 3);
}

#[test]
fn packed_rgb_totals_match_bytes_per_pixel() {
    let w = 640;
    let h = 480;
    assert_eq!(total_size(Colorspace::Bgr, false, w, h), w * h * 3);
    assert_eq!(total_size(Colorspace::Rgb, false, w, h), w * h * 3);
    assert_eq!(total_size(Colorspace::Bgra, false, w, h), w * h * 4);
}

#[test]
fn high_depth_doubles_every_plane() {
    let w = 640;
    let h = 480;
    assert_eq!(total_size(Colorspace::I420, true, w, h), w * h * 3);
    assert_eq!(
        plane_sizes(Colorspace::I420, true, w, h),
        vec![614400, 153600, 153600]
    );
    assert_eq!(total_size(Colorspace::I444, true, w, h), w * h * 6);
}

#[test]
fn semi_planar_has_two_planes_and_packed_one() {
    let nv12 = Param::new()
        .set_dimension(480, 640)
        .set_colorspace(Colorspace::NV12, false);
    assert_eq!(Picture::from_param(&nv12).unwrap().plane_count(), 2);
    let bgr = Param::new()
        .set_dimension(480, 640)
        .set_colorspace(Colorspace::Bgr, false);
    assert_eq!(Picture::from_param(&bgr).unwrap().plane_count(), 1);
}

#[test]
fn plane_index_out_of_range_is_invalid_argument() {
    let par = Param::new().set_dimension(480, 640);
    let mut pic = Picture::from_param(&par).unwrap();
    assert_eq!(pic.as_slice(3).err().unwrap(), Error::InvalidArgument);
    assert_eq!(pic.as_slice(usize::MAX).err().unwrap(), Error::InvalidArgument);
    let data = vec![0u8; 4];
    assert_eq!(pic.write_plane(3, &data).err().unwrap(), Error::InvalidArgument);

    let nv12 = Param::new()
        .set_dimension(480, 640)
        .set_colorspace(Colorspace::NV12, false);
    let pic = Picture::from_param(&nv12).unwrap();
    assert_eq!(pic.as_slice(2).err().unwrap(), Error::InvalidArgument);
}

#[test]
fn write_plane_rejects_wrong_length() {
    let par = Param::new().set_dimension(480, 640);
    let mut pic = Picture::from_param(&par).unwrap();
    let short = vec![1u8; 10];
    assert_eq!(pic.write_plane(0, &short).err().unwrap(), Error::InvalidArgument);
    // the plane is untouched
    assert!(pic.as_slice(0).unwrap().iter().all(|&b| b == 0));
}

#[test]
fn write_then_read_round_trips_chroma_plane() {
    let par = Param::new().set_dimension(480, 640);
    let mut pic = Picture::from_param(&par).unwrap();
    let len = pic.as_slice(1).unwrap().len();
    let data: Vec<u8> = (0..len).map(|i| (i % 251) as u8).collect();
    pic.write_plane(1, &data).unwrap();
    assert_eq!(pic.as_slice(1).unwrap(), data.as_slice());
    // the other planes keep their bytes
    assert!(pic.as_slice(0).unwrap().iter().all(|&b| b == 0));
    assert!(pic.as_slice(2).unwrap().iter().all(|&b| b == 0));
}

#[test]
fn fresh_buffer_is_zero_filled() {
    let par = Param::new().set_dimension(16, 16);
    let pic = Picture::from_param(&par).unwrap();
    for i in 0..pic.plane_count() {
        assert!(pic.as_slice(i).unwrap().iter().all(|&b| b == 0));
    }
}

#[test]
fn allocation_rejects_bad_dimensions() {
    let zero_w = Param::new().set_dimension(480, 0);
    assert_eq!(
        Picture::from_param(&zero_w).err().unwrap(),
        Error::AllocationFailure
    );
    let zero_h = Param::new().set_dimension(0, 640);
    assert_eq!(
        Picture::from_param(&zero_h).err().unwrap(),
        Error::AllocationFailure
    );
    let huge = Param::new().set_dimension(480, 65537);
    assert_eq!(
        Picture::from_param(&huge).err().unwrap(),
        Error::AllocationFailure
    );
}

#[test]
fn timestamp_is_stamped() {
    let par = Param::new().set_dimension(480, 640);
    let pic = Picture::from_param(&par).unwrap();
    assert_eq!(pic.timestamp(), 0);
    let pic = pic.set_timestamp(42);
    assert_eq!(pic.timestamp(), 42);
}

#[test]
fn odd_dimensions_truncate_chroma() {
    // a 3x3 4:2:0 frame: chroma planes cover the truncated half dimension
    assert_eq!(plane_sizes(Colorspace::I420, false, 3, 3), vec![9, 1, 1]);
}
