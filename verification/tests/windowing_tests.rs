use luminance::windowing::WindowDim;
use luminance::windowing::WindowOpt;

#[test]
fn default_options_are_a_960_by_540_window() {
    let opt = WindowOpt::default();
    assert_eq!(opt.dim, WindowDim::Windowed { width: 960, height: 540 });
    assert_eq!(opt.num_samples, None);
}

#[test]
fn set_dim_replaces_only_the_dimension() {
    let opt = WindowOpt::default().set_num_samples(Some(4));
    let opt = opt.set_dim(WindowDim::Fullscreen);
    assert_eq!(*opt.dim(), WindowDim::Fullscreen);
    assert_eq!(*opt.num_samples(), Some(4));
}

#[test]
fn set_num_samples_replaces_only_the_samples() {
    let opt = WindowOpt::default().set_num_samples(Some(8));
    assert_eq!(*opt.num_samples(), Some(8));
    assert_eq!(*opt.dim(), WindowDim::Windowed { width: 960, height: 540 });
    let opt = opt.set_num_samples(None);
    assert_eq!(*opt.num_samples(), None);
}

#[test]
fn fullscreen_restricted_carries_its_viewport() {
    let dim = WindowDim::FullscreenRestricted { width: 800, height: 600 };
    let opt = WindowOpt::default().set_dim(dim);
    assert_eq!(*opt.dim(), WindowDim::FullscreenRestricted { width: 800, height: 600 });
}
