//! Cellular (Voronoi) noise, the part of it that is decided on integers.
//!
//! A sample of the noise is the distance from a query position to the nearest
//! of a set of feature points, one per cell of a lattice. Where a cell's
//! feature point lies is a hash of the seed and of the cell's coordinate; which
//! feature point is nearest is a search through the three by three block of
//! cells around the query.
//!
//! Every binary32 number crosses this library's boundary as its bit pattern, a
//! `u32`. The caller does the arithmetic on the numbers themselves: it scales
//! the position, takes floor and fraction, and measures each distance.
//!
//! * [`binary32`]: the layout of a bit pattern, its classes and its order.
//! * [`hash`]: the FNV-1a accumulator behind the point generator.
//! * [`point`]: the feature point of a cell.
//! * [`voronoi`]: the block of cells around a query and the nearest candidate.
//! * [`settings`]: the parameters of a noise field.

pub mod binary32;
pub mod hash;
pub mod point;
pub mod settings;
pub mod voronoi;
