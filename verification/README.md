# eth3rn5l portfolio

A cyberpunk portfolio page rendered in the browser with WebGL2 and WASM.

- `src/` is the verified library:
  - `dom.rs`: the element model (`Node`, `Tag`, `Content`) and the
    new-tab-link safety predicate;
  - `page.rs`: every section of the page as data, with contracts that pin
    its structure and text, and the proof that each navigation link reaches
    its section;
  - `frame.rs`: the steps of each frame (two offscreen draws, a copy of
    the post-processed buffer to the screen, the additive rain), the
    texture-unit binding that keeps them free of feedback loops, the resize
    decision taken each frame and the full-screen quad, with their laws;
  - `shader.rs`: the verdict on a shader compile or program link.
- `app/lib.rs` is the browser side: it turns the page model into DOM
  elements, issues the WebGL calls each pass describes, and runs the
  animation loop. It expects the fragment shaders in `app/shaders/`.
- `tests/` runs the library on concrete values.
