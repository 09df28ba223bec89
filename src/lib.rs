//! Shared, float-free logic of two binary linear classifiers: an Adaline-style
//! batch gradient-descent learner and a Perceptron-style online learner.
//!
//! The weight arithmetic itself is floating point; this library holds every
//! decision that surrounds it: the shape of a dataset, the bipolar encoding of
//! labels, the misclassification count of an online epoch, and the iteration
//! schedule with its early stop.
pub mod labels;
pub mod online;
pub mod schedule;
pub mod shape;
