use webbing::layers::Layer;
use webbing::scene::{
    collider, Shape, FLOOR_HEIGHT, FLOOR_WIDTH, FLOOR_Y, GRAVITY, LEAVING_SENSOR_RADIUS,
    PLAYER_RADIUS, STICKY_SENSOR_MARGIN, WEBBING_HEIGHT, WEBBING_WIDTH,
};

#[test]
fn scene_constants_have_their_values() {
    assert_eq!(WEBBING_WIDTH, 1);
    assert_eq!(WEBBING_HEIGHT, 5);
    assert_eq!(STICKY_SENSOR_MARGIN, 1);
    assert_eq!(FLOOR_WIDTH, 200);
    assert_eq!(FLOOR_HEIGHT, 5);
    assert_eq!(FLOOR_Y, -50);
    assert_eq!(PLAYER_RADIUS, 10);
    assert_eq!(LEAVING_SENSOR_RADIUS, 10);
    assert_eq!(GRAVITY, 100);
}

#[test]
fn every_layer_has_its_collider() {
    assert_eq!(collider(Layer::Boundary), Shape::Rectangle { width: 200, height: 5 });
    assert_eq!(collider(Layer::Webbing), Shape::Rectangle { width: 1, height: 5 });
    assert_eq!(collider(Layer::LeavingSensor), Shape::Circle { radius: 10 });
    assert_eq!(collider(Layer::StickySensor), Shape::Rectangle { width: 2, height: 6 });
    assert_eq!(collider(Layer::Player), Shape::Circle { radius: 10 });
}

#[test]
fn sticky_sensor_is_slightly_larger_than_its_segment() {
    let segment = collider(Layer::Webbing);
    let sensor = collider(Layer::StickySensor);
    match (segment, sensor) {
        (
            Shape::Rectangle { width: w, height: h },
            Shape::Rectangle { width: sw, height: sh },
        ) => {
            assert_eq!(sw, w + 1);
            assert_eq!(sh, h + 1);
        }
        _ => panic!("both are rectangles"),
    }
}
