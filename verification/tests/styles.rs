use mpl_wgpu::backend::{Figure, WgpuBackend};
use mpl_wgpu::plotting::{AxisScale, LineStyle, MarkerStyle};

#[test]
fn axis_scale_defaults_to_linear() {
    assert_eq!(AxisScale::default(), AxisScale::Linear);
    assert_ne!(AxisScale::default(), AxisScale::Log10);
    assert_ne!(AxisScale::default(), AxisScale::Ln);
}

#[test]
fn line_styles_have_their_dash_patterns() {
    assert_eq!(LineStyle::Solid.dash_pattern(), (0, 0));
    assert_eq!(LineStyle::Dashed.dash_pattern(), (8, 4));
    assert_eq!(LineStyle::Dotted.dash_pattern(), (2, 4));
}

#[test]
fn marker_styles_have_their_primitive_types() {
    assert_eq!(MarkerStyle::Circle.primitive_type(), 1);
    assert_eq!(MarkerStyle::Square.primitive_type(), 0);
    assert_eq!(MarkerStyle::Diamond.primitive_type(), 13);
    assert_eq!(MarkerStyle::Plus.primitive_type(), 10);
    assert_eq!(MarkerStyle::Cross.primitive_type(), 11);
    assert_eq!(MarkerStyle::Point.primitive_type(), 1);
}

#[test]
fn a_figure_shows() {
    let figure = Figure::new();
    assert!(figure.show().is_ok());
    assert!(Figure::default().show().is_ok());
}

#[test]
fn a_backend_handle_is_created() {
    let _backend = WgpuBackend::new();
    let _default = WgpuBackend::default();
}
