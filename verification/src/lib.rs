//! The decision core of a small backward ray tracer.
//!
//! A ray tracer alternates arithmetic and decisions. It computes where a ray
//! crosses a surface, then decides which crossing counts; it computes how far
//! each object is, then decides which is met; it computes a cosine, then
//! decides whether a light reaches a point or a ray is followed further. This
//! library holds the decisions, each with a contract that says exactly what
//! is decided, and the data that a scene is made of.
//!
//! Every number of the tracer is an IEEE-754 binary64 value. The library
//! never rounds: it holds such a value as its 64-bit pattern, compares it and
//! selects it, and leaves the arithmetic to its caller, who turns a value
//! into its pattern and back at no cost.
pub mod raytracer;
