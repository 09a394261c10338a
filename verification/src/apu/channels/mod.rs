pub mod pulse;
pub mod noise;
pub mod wave;
