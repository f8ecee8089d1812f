use pxls::endpoint::{
    map_scheme, resource_location, websocket_endpoint, INFO_PATH, STATS_PATH, STREAM_PATH,
};
use pxls::{Buffer, BufferType, ConnectError};

#[test]
fn http_base_maps_to_ws() {
    assert_eq!(
        websocket_endpoint("http://pxls.space/"),
        Ok(String::from("ws://pxls.space/ws"))
    );
}

#[test]
fn https_base_maps_to_wss() {
    assert_eq!(
        websocket_endpoint("https://pxls.space/"),
        Ok(String::from("wss://pxls.space/ws"))
    );
}

#[test]
fn ftp_base_is_rejected_with_its_scheme() {
    assert_eq!(
        websocket_endpoint("ftp://pxls.space/"),
        Err(ConnectError::InvalidSiteScheme(String::from("ftp")))
    );
}

#[test]
fn text_that_is_no_url_is_rejected() {
    assert_eq!(websocket_endpoint("not a url"), Err(ConnectError::InvalidSiteBase));
}

#[test]
fn resources_resolve_against_the_base() {
    assert_eq!(
        resource_location("https://pxls.space/", BufferType::Colormap.path()),
        Some(String::from("https://pxls.space/boarddata"))
    );
    assert_eq!(
        resource_location("https://pxls.space/sub/", "stats/stats.json"),
        Some(String::from("https://pxls.space/sub/stats/stats.json"))
    );
    assert_eq!(resource_location("nonsense", "info"), None);
}

#[test]
fn schemes_of_the_stream() {
    assert_eq!(map_scheme("http"), Some("ws"));
    assert_eq!(map_scheme("https"), Some("wss"));
    assert_eq!(map_scheme("ftp"), None);
    assert_eq!(map_scheme("HTTP"), None);
    assert_eq!(map_scheme("ws"), None);
    assert_eq!(map_scheme(""), None);
}

#[test]
fn the_stream_replaces_the_last_segment_of_the_base() {
    assert_eq!(
        websocket_endpoint("https://pxls.space/canvas/index.html?x=1"),
        Ok(String::from("wss://pxls.space/canvas/ws"))
    );
    assert_eq!(
        websocket_endpoint("http://localhost:4567"),
        Ok(String::from("ws://localhost:4567/ws"))
    );
}

#[test]
fn other_schemes_are_named_in_the_rejection() {
    assert_eq!(
        websocket_endpoint("ws://pxls.space/"),
        Err(ConnectError::InvalidSiteScheme(String::from("ws")))
    );
    assert_eq!(
        websocket_endpoint("mailto:someone@example.com"),
        Err(ConnectError::InvalidSiteScheme(String::from("mailto")))
    );
    assert_eq!(
        websocket_endpoint("file:///tmp/canvas"),
        Err(ConnectError::InvalidSiteScheme(String::from("file")))
    );
}

#[test]
fn paths_of_the_buffers() {
    assert_eq!(BufferType::Colormap.path(), "boarddata");
    assert_eq!(BufferType::Placemap.path(), "placemap");
    assert_eq!(BufferType::Heatmap.path(), "heatmap");
    assert_eq!(BufferType::Virginmap.path(), "virginmap");
    assert_eq!(BufferType::InitialColormap.path(), "initialboarddata");
    let path: &str = BufferType::Heatmap.into();
    assert_eq!(path, "heatmap");
    assert_eq!(<&str>::from(BufferType::Colormap), "boarddata");
    assert_eq!(INFO_PATH, "info");
    assert_eq!(STATS_PATH, "stats/stats.json");
    assert_eq!(STREAM_PATH, "ws");
}

#[test]
fn sources_of_the_slots() {
    assert_eq!(Buffer::Colors.source(), BufferType::Colormap);
    assert_eq!(Buffer::InitialColors.source(), BufferType::InitialColormap);
    assert_eq!(Buffer::Mask.source(), BufferType::Placemap);
}
