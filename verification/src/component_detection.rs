//! Detecting the components in a photograph of a circuit.

pub mod component_detection_service;
pub mod llm_component_detection;
