pub mod lark;
pub mod miniflux;
