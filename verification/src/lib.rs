//! Node processing and code generation for the ONNX-ML operators
//! OneHotEncoder, ZipMap, SVMRegressor, TreeEnsembleClassifier, Scaler and Imputer.
pub mod text;
pub mod ir;
pub mod processor;
pub mod node;
pub mod codegen;
