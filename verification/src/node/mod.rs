//! Node processors: reading the configuration of each operator from its
//! attributes and inferring the types of its outputs.
use vstd::prelude::*;

pub mod one_hot_encoder;
pub mod svmregressor;
pub mod tree_ensemble_classifier;
pub mod zipmap;

use crate::node::one_hot_encoder::OneHotEncoderNode;
use crate::node::svmregressor::SVMRegressorNode;
use crate::node::tree_ensemble_classifier::TreeEnsembleClassifierNode;
use crate::node::zipmap::ZipMapNode;

verus! {

/// A node with its extracted configuration.
#[derive(Debug, Clone, PartialEq)]
pub enum Node {
    OneHotEncoder(OneHotEncoderNode),
    ZipMap(ZipMapNode),
    SVMRegressor(SVMRegressorNode),
    TreeEnsembleClassifier(TreeEnsembleClassifierNode),
}

} // verus!
